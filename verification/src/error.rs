//! Why a resolution failed.

use crate::platform::Architecture;
use vstd::prelude::*;
use vstd::string::*;

verus! {

/// The reason that a resolution ended without a path.
#[derive(Clone, Debug, PartialEq, Eq)]
pub enum ResolveError {
    /// No server build exists for the host's architecture.
    UnsupportedArchitecture(Architecture),
    /// The release index holds no release with assets.
    NoRelease,
    /// The release has no asset for the host's platform.
    NoAsset,
    /// A host call failed; the host's message is kept as it came.
    Host(String),
    /// The host answered a query that was not the one asked.
    UnexpectedResponse,
}

pub enum ResolveErrorView {
    UnsupportedArchitecture(Architecture),
    NoRelease,
    NoAsset,
    Host(Seq<char>),
    UnexpectedResponse,
}

impl View for ResolveError {
    type V = ResolveErrorView;

    open spec fn view(&self) -> ResolveErrorView {
        match *self {
            ResolveError::UnsupportedArchitecture(arch) => ResolveErrorView::UnsupportedArchitecture(
                arch,
            ),
            ResolveError::NoRelease => ResolveErrorView::NoRelease,
            ResolveError::NoAsset => ResolveErrorView::NoAsset,
            ResolveError::Host(message) => ResolveErrorView::Host(message@),
            ResolveError::UnexpectedResponse => ResolveErrorView::UnexpectedResponse,
        }
    }
}

impl ResolveErrorView {
    /// The text that the host shows for the error.
    pub open spec fn message(self) -> Seq<char> {
        match self {
            ResolveErrorView::UnsupportedArchitecture(arch) => "unsupported architecture: "@
                + arch.debug_text(),
            ResolveErrorView::NoRelease => "no release found"@,
            ResolveErrorView::NoAsset => "no available release asset for current platform"@,
            ResolveErrorView::Host(message) => message,
            ResolveErrorView::UnexpectedResponse => "unexpected answer from the host"@,
        }
    }
}

impl ResolveError {
    /// Renders the error as the text that is handed to the host.
    pub fn message(&self) -> (text: String)
        ensures
            text@ == self@.message(),
    {
        match self {
            ResolveError::UnsupportedArchitecture(arch) => {
                let mut text = String::from_str("unsupported architecture: ");
                let shown = arch.debug_string();
                text.append(shown.as_str());
                text
            },
            ResolveError::NoRelease => String::from_str("no release found"),
            ResolveError::NoAsset => String::from_str(
                "no available release asset for current platform",
            ),
            ResolveError::Host(message) => message.clone(),
            ResolveError::UnexpectedResponse => String::from_str("unexpected answer from the host"),
        }
    }
}

} // verus!
