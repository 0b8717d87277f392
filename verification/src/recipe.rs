//! The recipe: the declarative document describing desired links and an
//! optional post-setup script.  Loading and parsing the document is the
//! surrounding program's job; it hands the engine this ready-made value and
//! maps what went wrong into [`RecipeLoadError`].

use vstd::prelude::*;
use vstd::string::*;
use crate::decimal::{append_decimal, spec_decimal};
use crate::descriptor::{DescriptorView, LinkDescriptor};
use crate::outcome::{io_message, spec_io_message, IoDetail, IoDetailView};

verus! {

/// The declarative input: an optional post-setup script and the ordered
/// list of requested links.
pub struct Recipe {
    pub script_on_setup: Option<String>,
    pub links: Vec<LinkDescriptor>,
}

/// Mathematical image of a [`Recipe`].
pub struct RecipeView {
    pub script_on_setup: Option<Seq<char>>,
    pub links: Seq<DescriptorView>,
}

impl View for Recipe {
    type V = RecipeView;

    open spec fn view(&self) -> RecipeView {
        RecipeView {
            script_on_setup: match &self.script_on_setup {
                Option::Some(s) => Option::Some(s@),
                Option::None => Option::None,
            },
            links: self.links@.map_values(|l: LinkDescriptor| l@),
        }
    }
}

/// Why a recipe could not be loaded: the file could not be read, or the
/// document was malformed.  Both are fatal to the whole run.
pub enum RecipeLoadError {
    /// Reading the recipe file failed.
    Io(IoDetail),
    /// The document did not parse; carries the parser's account of why.
    Format(String),
}

/// Mathematical image of a [`RecipeLoadError`].
pub enum RecipeLoadErrorView {
    Io(IoDetailView),
    Format(Seq<char>),
}

impl View for RecipeLoadError {
    type V = RecipeLoadErrorView;

    open spec fn view(&self) -> RecipeLoadErrorView {
        match self {
            RecipeLoadError::Io(d) => RecipeLoadErrorView::Io(d@),
            RecipeLoadError::Format(c) => RecipeLoadErrorView::Format(c@),
        }
    }
}

/// The diagnostic line for each load failure.
pub open spec fn spec_load_error_message(e: RecipeLoadErrorView) -> Seq<char> {
    match e {
        RecipeLoadErrorView::Io(d) => spec_io_message(d),
        RecipeLoadErrorView::Format(c) => "Recipe format error: "@ + c,
    }
}

impl RecipeLoadError {
    /// Renders the diagnostic line for this load failure.
    pub fn message(&self) -> (s: String)
        ensures
            s@ == spec_load_error_message(self@),
    {
        match self {
            RecipeLoadError::Io(d) => io_message(d),
            RecipeLoadError::Format(c) => {
                let mut s = String::from_str("Recipe format error: ");
                s.append(c.as_str());
                s
            },
        }
    }
}

/// The error line for a post-setup script that did not succeed: `code` is
/// its exit code, or `None` when a signal terminated it.
pub open spec fn spec_script_failure(code: Option<int>) -> Seq<char> {
    match code {
        Option::None => "Process terminated by signal"@,
        Option::Some(c) => "Process exited with code "@ + spec_decimal(c),
    }
}

/// The error to report for a finished post-setup script: `None` when it
/// succeeded, the diagnostic line otherwise.  A failed script is fatal to
/// the run, but only after the whole queue has drained.
pub fn script_failure_message(success: bool, code: Option<i32>) -> (r: Option<String>)
    ensures
        ({
            let cv = match code {
                Option::Some(c) => Option::Some(c as int),
                Option::None => Option::<int>::None,
            };
            match r {
                Option::None => success,
                Option::Some(s) => !success && s@ == spec_script_failure(cv),
            }
        }),
{
    if success {
        Option::None
    } else {
        match code {
            Option::None => Option::Some(String::from_str("Process terminated by signal")),
            Option::Some(c) => {
                let mut s = String::from_str("Process exited with code ");
                append_decimal(&mut s, c);
                Option::Some(s)
            },
        }
    }
}

} // verus!
