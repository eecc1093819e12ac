//! The error box shown on a page.
use vstd::prelude::*;

verus! {

/// A heading and a message to show above a form.
#[derive(Clone, Copy, Debug, PartialEq, Eq)]
pub struct ErrorPage<'a> {
    pub title: &'a str,
    pub message: &'a str,
}

impl<'a> ErrorPage<'a> {
    pub fn new(title: &'a str, message: &'a str) -> (page: ErrorPage<'a>)
        ensures
            page.title == title,
            page.message == message,
    {
        ErrorPage { title, message }
    }
}

} // verus!
