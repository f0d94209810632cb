use vstd::prelude::*;

verus! {

/// An image reference, `name[:tag]`.
#[derive(Debug, Clone)]
pub struct ImageRef {
    pub name: String,
    pub tag: String,
}

/// The tag used when a reference names none.
pub const DEFAULT_TAG: &'static str = "latest";

pub open spec fn has_colon(s: Seq<char>) -> bool {
    exists|i: int| 0 <= i < s.len() && s[i] == ':'
}

/// Whether `r` is what `s` parses to: the name is everything before the
/// first `:`, the tag everything after it; without a `:` the tag is
/// `latest`.
pub open spec fn parses_to(s: Seq<char>, r: ImageRef) -> bool {
    &&& !has_colon(r.name@)
    &&& has_colon(s) ==> s == r.name@ + seq![':'] + r.tag@
    &&& !has_colon(s) ==> r.name@ == s && r.tag@ == DEFAULT_TAG@
}

/// Parses `name[:tag]`.
pub fn parse_image_ref(s: &str) -> (r: ImageRef)
    ensures
        parses_to(s@, r),
{
    let n = s.unicode_len();
    let mut i: usize = 0;
    while i < n
        invariant
            n == s@.len(),
            i <= n,
            forall|j: int| 0 <= j < i ==> s@[j] != ':',
        decreases n - i,
    {
        if s.get_char(i) == ':' {
            let name = s.substring_char(0, i);
            let tag = s.substring_char(i + 1, n);
            assert(s@ =~= name@ + seq![':'] + tag@);
            return ImageRef { name: String::from_str(name), tag: String::from_str(tag) };
        }
        i = i + 1;
    }
    assert(s@.subrange(0, n as int) =~= s@);
    ImageRef { name: String::from_str(s), tag: String::from_str(DEFAULT_TAG) }
}

} // verus!
