use vstd::prelude::*;

verus! {

/// The path separator used when joining.
pub open spec fn separator() -> char {
    '/'
}

/// True when `p` is an absolute path.
pub open spec fn is_absolute(p: Seq<char>) -> bool {
    p.len() > 0 && p[0] == separator()
}

/// Joining `part` onto `base`: an absolute `part` replaces `base`; otherwise a
/// separator is put between the two unless `base` is empty or already ends
/// with one.
pub open spec fn spec_join(base: Seq<char>, part: Seq<char>) -> Seq<char> {
    if is_absolute(part) {
        part
    } else if base.len() == 0 || base.last() == separator() {
        base + part
    } else {
        base + seq![separator()] + part
    }
}

/// Joins `part` onto `base` as a path.
pub fn join_path(base: &str, part: &str) -> (r: String)
    ensures
        r@ == spec_join(base@, part@),
{
    let part_len = part.unicode_len();
    if part_len > 0 && part.get_char(0) == '/' {
        return part.to_owned();
    }
    let base_len = base.unicode_len();
    let mut r = base.to_owned();
    if base_len == 0 || base.get_char(base_len - 1) == '/' {
        r.append(part);
        r
    } else {
        r.append("/");
        proof {
            reveal_strlit("/");
            assert("/"@ =~= seq![separator()]);
        }
        r.append(part);
        r
    }
}

} // verus!
