//! The capabilities shared by every remote object: a display name the
//! resolver can match on, a type label for error messages, and a plain-text
//! rendering.

use vstd::prelude::*;

verus! {

/// A remote object with a stable id, a display name and a type label.
pub trait TrelloObject: Sized {
    /// The object's display name, as the resolver matches on it.
    spec fn name_spec(&self) -> Seq<char>;

    /// The type label used in resolver error messages.
    spec fn type_spec() -> Seq<char>;

    /// The field names requested from the remote service for this type.
    spec fn fields_spec() -> Seq<Seq<char>>;

    fn get_type() -> (r: String)
        ensures
            r@ == Self::type_spec(),
    ;

    fn get_name(&self) -> (r: &str)
        ensures
            r@ == self.name_spec(),
    ;

    fn get_fields() -> (r: Vec<&'static str>)
        ensures
            r@.map_values(|s: &'static str| s@) == Self::fields_spec(),
    ;
}

/// Rendering of an object to plain text.
pub trait Renderable: Sized {
    /// The full rendering, possibly spanning several lines.
    spec fn render_spec(&self) -> Seq<char>;

    /// The one-line rendering.
    spec fn simple_render_spec(&self) -> Seq<char>;

    fn render(&self) -> (r: String)
        ensures
            r@ == self.render_spec(),
    ;

    fn simple_render(&self) -> (r: String)
        ensures
            r@ == self.simple_render_spec(),
    ;
}

} // verus!
