//! Protocol variants that a peer can ask for.

use vstd::prelude::*;

verus! {

/// Protocol variant of a connection: the legacy one, which carries no routing
/// key, or the named one, which carries the name of the game it is for.
///
/// The variant travels with the connection's identifier from the handshake to
/// the notification of the controlling application. It changes nothing in how
/// the connection is driven.
#[derive(Debug, Clone, PartialEq, Eq, Hash)]
pub enum ApiVersion {
    V1,
    /// game name
    V2(String),
}

/// Mathematical value of an [`ApiVersion`].
pub enum ApiVersionView {
    V1,
    V2(Seq<char>),
}

impl DeepView for ApiVersion {
    type V = ApiVersionView;

    open spec fn deep_view(&self) -> ApiVersionView {
        match *self {
            ApiVersion::V1 => ApiVersionView::V1,
            ApiVersion::V2(game) => ApiVersionView::V2(game@),
        }
    }
}

impl View for ApiVersion {
    type V = ApiVersionView;

    open spec fn view(&self) -> ApiVersionView {
        self.deep_view()
    }
}

impl ApiVersionView {
    /// Short name of the variant, without the game.
    pub open spec fn label(self) -> Seq<char> {
        match self {
            ApiVersionView::V1 => "v1"@,
            ApiVersionView::V2(_) => "v2"@,
        }
    }
}

impl ApiVersion {
    /// The text this variant is shown as: `v1` or `v2`.
    pub fn label(&self) -> (text: String)
        ensures
            text@ == self@.label(),
    {
        match self {
            ApiVersion::V1 => "v1".to_owned(),
            ApiVersion::V2(_) => "v2".to_owned(),
        }
    }

    /// The game that a named connection is for.
    pub fn game(&self) -> (name: Option<&String>)
        ensures
            match name {
                Some(g) => self@ == ApiVersionView::V2(g@),
                None => self@ == ApiVersionView::V1,
            },
    {
        match self {
            ApiVersion::V1 => None,
            ApiVersion::V2(game) => Some(game),
        }
    }
}

} // verus!
