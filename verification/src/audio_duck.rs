//! Parsing for the audio-ducking feature: the current sink volume is read
//! from the mixer's textual output, a sequence of `/`-separated fields in
//! which the percentage field ends with `%`.

use vstd::prelude::*;
use vstd::string::StrSliceExecFns;

use crate::text;

verus! {

/// The percentage one field denotes, if it is one: trimmed, ending in
/// `%`, with the rest parsing as an unsigned number.
pub open spec fn field_percent(p: Seq<char>) -> Option<u32> {
    let t = text::trimmed(p);
    if t.len() > 0 && t.last() == '%' && text::u32_parseable(text::trimmed(t.drop_last())) {
        Some(text::u32_value(text::trimmed(t.drop_last())) as u32)
    } else {
        None
    }
}

/// The first percentage field among the `/`-separated fields.
pub open spec fn first_percent(fields: Seq<Seq<char>>) -> Option<u32>
    decreases fields.len(),
{
    if fields.len() == 0 {
        None
    } else if field_percent(fields[0]) is Some {
        field_percent(fields[0])
    } else {
        first_percent(fields.skip(1))
    }
}

/// The percentage a field denotes, if any.
fn parse_field(p: &str) -> (r: Option<u32>)
    ensures
        r == field_percent(p@),
{
    let t = text::trim(p);
    let n = t.as_str().unicode_len();
    if n == 0 {
        return None;
    }
    if t.as_str().get_char(n - 1) != '%' {
        return None;
    }
    let pct = text::trim(t.as_str().substring_char(0, n - 1));
    proof {
        assert(t@.subrange(0, n - 1) =~= t@.drop_last());
    }
    text::parse_u32(pct.as_str())
}

/// Parse the volume percentage from the mixer's sink-volume output: the
/// first `/`-separated field that, trimmed, ends in `%` and whose number
/// parses.  `None` when no field qualifies.
pub fn parse_volume(output: &str) -> (r: Option<u32>)
    ensures
        r == first_percent(text::split_on(output@, '/')),
{
    let fields = text::split_str(output, '/');
    let n = fields.len();
    let mut i: usize = 0;
    proof {
        assert(text::str_views(fields@).skip(0) =~= text::str_views(fields@));
    }
    while i < n
        invariant
            n == fields@.len(),
            0 <= i <= n,
            text::str_views(fields@) == text::split_on(output@, '/'),
            first_percent(text::str_views(fields@)) == first_percent(
                text::str_views(fields@).skip(i as int),
            ),
        decreases n - i,
    {
        let r = parse_field(fields[i].as_str());
        proof {
            assert(text::str_views(fields@).skip(i as int)[0] == fields@[i as int]@);
            assert(text::str_views(fields@).skip(i as int).skip(1) =~= text::str_views(
                fields@,
            ).skip(i + 1));
        }
        match r {
            Some(v) => {
                return Some(v);
            },
            None => (),
        }
        i = i + 1;
    }
    proof {
        assert(text::str_views(fields@).skip(n as int) =~= Seq::<Seq<char>>::empty());
    }
    None
}

} // verus!
