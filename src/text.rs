use vstd::prelude::*;

verus! {

/// Text that an option record may hold: an owned `String` or a borrowed `&str`.
///
/// Every value ends up on the wire as text, so each form can be viewed as a
/// sequence of characters and copied into an owned `String`.
pub trait TextParam {
    /// The characters of this text.
    spec fn text(&self) -> Seq<char>;

    /// An owned copy of this text.
    fn to_text(&self) -> (r: String)
        ensures
            r@ == self.text(),
    ;
}

/// No two entries of a map have keys with the same text.
pub open spec fn keys_unique<K: TextParam, V>(m: Seq<(K, V)>) -> bool {
    forall|i: int, j: int| 0 <= i < j < m.len() ==> #[trigger] m[i].0.text() != #[trigger] m[j].0.text()
}

impl TextParam for String {
    open spec fn text(&self) -> Seq<char> {
        self@
    }

    fn to_text(&self) -> (r: String) {
        self.clone()
    }
}

impl<'a> TextParam for &'a str {
    open spec fn text(&self) -> Seq<char> {
        (**self)@
    }

    fn to_text(&self) -> (r: String) {
        (**self).to_owned()
    }
}

} // verus!
