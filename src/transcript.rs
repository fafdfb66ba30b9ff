use vstd::prelude::*;

verus! {

/// The characters with the Unicode `White_Space` property, which is what
/// `char::is_whitespace` and `str::trim` go by.
pub open spec fn is_white_space(c: char) -> bool {
    ('\u{9}' <= c && c <= '\u{d}') || c == ' ' || c == '\u{85}' || c == '\u{a0}'
        || c == '\u{1680}' || ('\u{2000}' <= c && c <= '\u{200a}') || c == '\u{2028}'
        || c == '\u{2029}' || c == '\u{202f}' || c == '\u{205f}' || c == '\u{3000}'
}

/// `s` without its leading white space.
pub open spec fn trim_start(s: Seq<char>) -> Seq<char>
    decreases s.len(),
{
    if s.len() > 0 && is_white_space(s[0]) {
        trim_start(s.drop_first())
    } else {
        s
    }
}

/// `s` without its trailing white space.
pub open spec fn trim_end(s: Seq<char>) -> Seq<char>
    decreases s.len(),
{
    if s.len() > 0 && is_white_space(s.last()) {
        trim_end(s.drop_last())
    } else {
        s
    }
}

/// `s` without white space at either end.
pub open spec fn trimmed(s: Seq<char>) -> Seq<char> {
    trim_end(trim_start(s))
}

/// The segments in order, each followed by one space.
pub open spec fn joined(segments: Seq<Seq<char>>) -> Seq<char>
    decreases segments.len(),
{
    if segments.len() == 0 {
        Seq::empty()
    } else {
        joined(segments.drop_last()) + segments.last() + seq![' ']
    }
}

/// The transcript made of the engine's segments.
pub open spec fn transcript_of(segments: Seq<Seq<char>>) -> Seq<char> {
    trimmed(joined(segments))
}

/// Relies on `str::trim`: removes leading and trailing `White_Space` characters.
#[verifier::external_body]
fn trim_white_space(s: &str) -> (r: &str)
    ensures
        r@ == trimmed(s@),
{
    s.trim()
}

/// Concatenates the engine's text segments in order, one space after each,
/// and trims white space from both ends of the result.
pub fn assemble_transcript(segments: &Vec<String>) -> (r: String)
    ensures
        r@ == transcript_of(segments@.map_values(|s: String| s@)),
{
    let ghost views = segments@.map_values(|s: String| s@);
    let mut text = String::new();
    let mut i: usize = 0;
    while i < segments.len()
        invariant
            i <= segments.len(),
            views == segments@.map_values(|s: String| s@),
            text@ == joined(views.subrange(0, i as int)),
        decreases segments.len() - i,
    {
        proof {
            reveal_strlit(" ");
        }
        assert(views[i as int] == segments@[i as int]@);
        text.append(segments[i].as_str());
        text.append(" ");
        proof {
            let prefix = views.subrange(0, i as int + 1);
            assert(prefix.drop_last() =~= views.subrange(0, i as int));
            assert(prefix.last() == views[i as int]);
        }
        i = i + 1;
    }
    assert(views.subrange(0, i as int) =~= views);
    let r = trim_white_space(text.as_str());
    String::from_str(r)
}

/// Every character of `s` is white space.
pub open spec fn all_white_space(s: Seq<char>) -> bool {
    forall|i: int| 0 <= i < s.len() ==> is_white_space(#[trigger] s[i])
}

proof fn lemma_trim_start_of_blank(s: Seq<char>)
    requires
        all_white_space(s),
    ensures
        trim_start(s) == Seq::<char>::empty(),
    decreases s.len(),
{
    if s.len() > 0 {
        assert(is_white_space(s[0]));
        assert forall|i: int| 0 <= i < s.drop_first().len() implies is_white_space(
            #[trigger] s.drop_first()[i],
        ) by {
            assert(s.drop_first()[i] == s[i + 1]);
        }
        lemma_trim_start_of_blank(s.drop_first());
    } else {
        assert(s =~= Seq::<char>::empty());
    }
}

proof fn lemma_joined_of_blank(segments: Seq<Seq<char>>)
    requires
        forall|k: int| 0 <= k < segments.len() ==> all_white_space(#[trigger] segments[k]),
    ensures
        all_white_space(joined(segments)),
    decreases segments.len(),
{
    if segments.len() > 0 {
        let rest = segments.drop_last();
        assert forall|k: int| 0 <= k < rest.len() implies all_white_space(#[trigger] rest[k]) by {
            assert(rest[k] == segments[k]);
        }
        lemma_joined_of_blank(rest);
        let last = segments.last();
        assert(all_white_space(segments[segments.len() - 1]));
        let j = joined(rest) + last + seq![' '];
        assert forall|i: int| 0 <= i < j.len() implies is_white_space(#[trigger] j[i]) by {
            if i < joined(rest).len() {
                assert(j[i] == joined(rest)[i]);
            } else if i < joined(rest).len() + last.len() {
                assert(j[i] == last[i - joined(rest).len()]);
            } else {
                assert(j[i] == ' ');
            }
        }
    }
}

/// When the engine reports no segment at all, the transcript is the empty
/// string (and no error).
pub proof fn no_segments_give_empty_transcript(segments: Seq<Seq<char>>)
    requires
        segments.len() == 0,
    ensures
        transcript_of(segments) == Seq::<char>::empty(),
{
    assert(joined(segments) == Seq::<char>::empty());
    assert(trim_start(Seq::<char>::empty()) == Seq::<char>::empty());
    assert(trim_end(Seq::<char>::empty()) == Seq::<char>::empty());
}

/// When every segment the engine reports is white space only (as for a
/// recording of silence), the transcript is the empty string.
pub proof fn blank_segments_give_empty_transcript(segments: Seq<Seq<char>>)
    requires
        forall|k: int| 0 <= k < segments.len() ==> all_white_space(#[trigger] segments[k]),
    ensures
        transcript_of(segments) == Seq::<char>::empty(),
{
    lemma_joined_of_blank(segments);
    lemma_trim_start_of_blank(joined(segments));
    assert(trim_end(Seq::<char>::empty()) == Seq::<char>::empty());
}

} // verus!
