//! Class identifiers and the route prefixes they carry.
//!
//! A class identifier is either the bare identifier of a collection that lives
//! on this chain, or `<port>/<channel>/<class id>`: the identifier that the
//! class had on the chain it came from, behind the port and channel through
//! which it arrived. Each hop adds one such prefix.

use vstd::prelude::*;
use vstd::string::*;

use crate::error::{ContractError, ContractErrorView};

verus! {

/// The character that separates the segments of a class identifier. It may not
/// occur inside a port, a channel or a bare class identifier.
pub const SEPARATOR: char = '/';

/// A segment is a non-empty run of characters without a separator.
pub open spec fn is_segment(s: Seq<char>) -> bool {
    &&& s.len() > 0
    &&& forall|i: int| 0 <= i < s.len() ==> s[i] != SEPARATOR
}

/// The prefix that stands for the route through `port` and `channel`.
pub open spec fn prefix_of(port: Seq<char>, channel: Seq<char>) -> Seq<char> {
    port + seq![SEPARATOR] + channel + seq![SEPARATOR]
}

/// How many separators `s` holds.
pub open spec fn separator_count(s: Seq<char>) -> nat
    decreases s.len(),
{
    if s.len() == 0 {
        0
    } else {
        separator_count(s.drop_last()) + if s.last() == SEPARATOR {
            1nat
        } else {
            0nat
        }
    }
}

/// No segment of `s` is empty: `s` is not empty, does not end in a separator,
/// and no separator stands at its start or right behind another one.
pub open spec fn no_empty_segment(s: Seq<char>) -> bool {
    &&& s.len() > 0
    &&& s.last() != SEPARATOR
    &&& forall|i: int|
        0 <= i < s.len() && #[trigger] s[i] == SEPARATOR ==> i > 0 && s[i - 1] != SEPARATOR
}

/// A well-formed class identifier is a bare segment behind any number of
/// `<port>/<channel>/` pairs: its segments are non-empty and their number is
/// odd.
pub open spec fn well_formed_class_id(s: Seq<char>) -> bool {
    &&& no_empty_segment(s)
    &&& separator_count(s) % 2 == 0
}

/// What is left of `class_id` behind the prefix of the route through `port`
/// and `channel`, if `class_id` starts with exactly that prefix.
pub open spec fn stripped(port: Seq<char>, channel: Seq<char>, class_id: Seq<char>) -> Option<
    Seq<char>,
> {
    let prefix = prefix_of(port, channel);
    if prefix.is_prefix_of(class_id) {
        Some(class_id.skip(prefix.len() as int))
    } else {
        None
    }
}

/// Tells whether `s` can stand as a port or channel in a prefix.
pub fn is_valid_segment(s: &str) -> (ok: bool)
    ensures
        ok == is_segment(s@),
{
    let mut clean: bool = true;
    let mut empty: bool = true;
    for c in it: s.chars()
        invariant
            it.seq() == s@,
            empty == (it.index() == 0),
            clean == (forall|i: int| 0 <= i < it.index() ==> s@[i] != SEPARATOR),
    {
        if c == SEPARATOR {
            clean = false;
        }
        empty = false;
    }
    clean && !empty
}

/// Tells whether `class_id` is a well-formed class identifier.
pub fn is_well_formed_class_id(class_id: &str) -> (ok: bool)
    ensures
        ok == well_formed_class_id(class_id@),
{
    let mut whole: bool = true;
    let mut after_separator: bool = true;
    let mut empty: bool = true;
    let mut even: bool = true;
    for c in it: class_id.chars()
        invariant
            it.seq() == class_id@,
            empty == (it.index() == 0),
            after_separator == (it.index() == 0 || class_id@[it.index() - 1] == SEPARATOR),
            even == (separator_count(class_id@.take(it.index())) % 2 == 0),
            whole == (forall|i: int|
                0 <= i < it.index() && #[trigger] class_id@[i] == SEPARATOR ==> i > 0
                    && class_id@[i - 1] != SEPARATOR),
    {
        proof {
            let i: int = it.index();
            assert(class_id@.take(i + 1).drop_last() =~= class_id@.take(i));
        }
        if c == SEPARATOR {
            if after_separator {
                whole = false;
            }
            even = !even;
            after_separator = true;
        } else {
            after_separator = false;
        }
        empty = false;
    }
    proof {
        assert(class_id@.take(class_id@.len() as int) =~= class_id@);
    }
    whole && !empty && !after_separator && even
}

/// Formats the prefix that stands for the route through `port` and `channel`:
/// the port, a separator, the channel, a separator.
pub fn derive_prefix(port: &str, channel: &str) -> (prefix: String)
    ensures
        prefix@ == prefix_of(port@, channel@),
{
    let mut prefix = port.to_owned();
    prefix.append("/");
    prefix.append(channel);
    prefix.append("/");
    proof {
        reveal_strlit("/");
    }
    prefix
}

/// Puts the prefix of the route through `port` and `channel` in front of
/// `class_id`.
pub fn add_prefix(port: &str, channel: &str, class_id: &str) -> (prefixed: String)
    ensures
        prefixed@ == prefix_of(port@, channel@) + class_id@,
{
    derive_prefix(port, channel).concat(class_id)
}

/// Takes the prefix of the route through `port` and `channel` off `class_id`.
///
/// A malformed `class_id` is refused. Otherwise the result is the rest of
/// `class_id` if it starts with exactly that prefix, and `None` if it has no
/// prefix or the prefix of another route.
pub fn strip_local_prefix(port: &str, channel: &str, class_id: &str) -> (r: Result<
    Option<String>,
    ContractError,
>)
    ensures
        match r {
            Ok(Some(local)) => well_formed_class_id(class_id@) && stripped(
                port@,
                channel@,
                class_id@,
            ) == Some(local@),
            Ok(None) => well_formed_class_id(class_id@) && stripped(port@, channel@, class_id@)
                is None,
            Err(e) => !well_formed_class_id(class_id@) && e@ == (
            ContractErrorView::IdentifierFormat { identifier: class_id@ }),
        },
{
    if !is_well_formed_class_id(class_id) {
        return Err(ContractError::IdentifierFormat { identifier: class_id.to_owned() });
    }
    let prefix = derive_prefix(port, channel);
    let prefix_len: usize = prefix.as_str().unicode_len();
    let len: usize = class_id.unicode_len();
    if prefix_len > len {
        return Ok(None);
    }
    let head = class_id.substring_char(0, prefix_len).to_owned();
    if head == prefix {
        let local = class_id.substring_char(prefix_len, len).to_owned();
        proof {
            assert(class_id@.skip(prefix_len as int) =~= class_id@.subrange(
                prefix_len as int,
                len as int,
            ));
        }
        Ok(Some(local))
    } else {
        Ok(None)
    }
}

/// The separators of a concatenation are those of its two parts.
proof fn lemma_separator_count_concat(a: Seq<char>, b: Seq<char>)
    ensures
        separator_count(a + b) == separator_count(a) + separator_count(b),
    decreases b.len(),
{
    if b.len() == 0 {
        assert(a + b =~= a);
    } else {
        lemma_separator_count_concat(a, b.drop_last());
        assert((a + b).drop_last() =~= a + b.drop_last());
    }
}

/// A run of characters that are no separators holds no separator.
proof fn lemma_segment_has_no_separator(s: Seq<char>)
    requires
        forall|i: int| 0 <= i < s.len() ==> s[i] != SEPARATOR,
    ensures
        separator_count(s) == 0,
    decreases s.len(),
{
    if s.len() > 0 {
        lemma_segment_has_no_separator(s.drop_last());
    }
}

/// The prefix of a route holds two separators.
proof fn lemma_prefix_has_two_separators(port: Seq<char>, channel: Seq<char>)
    requires
        is_segment(port),
        is_segment(channel),
    ensures
        separator_count(prefix_of(port, channel)) == 2,
{
    let sep = seq![SEPARATOR];
    assert(separator_count(sep) == 1) by {
        assert(separator_count(sep.drop_last()) == 0);
    }
    lemma_segment_has_no_separator(port);
    lemma_segment_has_no_separator(channel);
    lemma_separator_count_concat(port, sep);
    lemma_separator_count_concat(port + sep, channel);
    lemma_separator_count_concat(port + sep + channel, sep);
}

/// Deriving a prefix and taking it off again gives back the class identifier
/// that it was put in front of, whatever the port, the channel and the
/// identifier are.
pub proof fn law_strip_undoes_prefix(port: Seq<char>, channel: Seq<char>, class_id: Seq<char>)
    ensures
        stripped(port, channel, prefix_of(port, channel) + class_id) == Some(class_id),
{
    let prefix = prefix_of(port, channel);
    let whole = prefix + class_id;
    assert(whole.subrange(0, prefix.len() as int) =~= prefix);
    assert(whole.skip(prefix.len() as int) =~= class_id);
}

/// A well-formed class identifier stays well-formed behind the prefix of a
/// route whose port and channel are segments.
pub proof fn law_prefixed_class_id_is_well_formed(
    port: Seq<char>,
    channel: Seq<char>,
    class_id: Seq<char>,
)
    requires
        is_segment(port),
        is_segment(channel),
        well_formed_class_id(class_id),
    ensures
        well_formed_class_id(prefix_of(port, channel) + class_id),
{
    let prefix = prefix_of(port, channel);
    let whole = prefix + class_id;
    lemma_prefix_has_two_separators(port, channel);
    lemma_separator_count_concat(prefix, class_id);
    // A separator of the whole is the one behind the port, the one behind
    // the channel, or one of the class identifier; each follows a character
    // that is none.
    assert forall|i: int| 0 <= i < whole.len() && #[trigger] whole[i] == SEPARATOR implies i > 0
        && whole[i - 1] != SEPARATOR by {
        if i < prefix.len() {
            assert(i == port.len() || i == prefix.len() - 1);
        } else if i > prefix.len() {
            assert(whole[i] == class_id[i - prefix.len()]);
            assert(whole[i - 1] == class_id[i - 1 - prefix.len()]);
        } else {
            assert(whole[i] == class_id[0]);
        }
    }
    assert(whole.last() == class_id.last());
}

/// What is left of a well-formed class identifier behind the prefix of a
/// route is a well-formed class identifier again.
pub proof fn law_stripped_class_id_is_well_formed(
    port: Seq<char>,
    channel: Seq<char>,
    class_id: Seq<char>,
)
    requires
        is_segment(port),
        is_segment(channel),
        well_formed_class_id(class_id),
        stripped(port, channel, class_id) is Some,
    ensures
        well_formed_class_id(stripped(port, channel, class_id)->0),
{
    let prefix = prefix_of(port, channel);
    let local = class_id.skip(prefix.len() as int);
    assert(class_id =~= prefix + local);
    lemma_prefix_has_two_separators(port, channel);
    lemma_separator_count_concat(prefix, local);
    // The prefix ends in a separator, so the rest is not empty and does not
    // start with one.
    assert(class_id[prefix.len() - 1] == SEPARATOR);
    assert forall|i: int| 0 <= i < local.len() && #[trigger] local[i] == SEPARATOR implies i > 0
        && local[i - 1] != SEPARATOR by {
        assert(local[i] == class_id[i + prefix.len()]);
    }
}

/// A prefix names one route only: an identifier that starts with the prefixes
/// of two routes, each made of segments, starts with the same route twice.
pub proof fn law_prefix_is_unambiguous(
    port_a: Seq<char>,
    channel_a: Seq<char>,
    port_b: Seq<char>,
    channel_b: Seq<char>,
    class_id: Seq<char>,
)
    requires
        is_segment(port_a),
        is_segment(channel_a),
        is_segment(port_b),
        is_segment(channel_b),
        stripped(port_a, channel_a, class_id) is Some,
        stripped(port_b, channel_b, class_id) is Some,
    ensures
        port_a == port_b,
        channel_a == channel_b,
{
    let a = prefix_of(port_a, channel_a);
    let b = prefix_of(port_b, channel_b);
    // Both prefixes are read off the front of the same identifier.
    assert forall|i: int| 0 <= i < a.len() && i < b.len() implies a[i] == b[i] by {
        assert(a[i] == class_id[i]);
        assert(b[i] == class_id[i]);
    }
    // The first separator ends the port.
    if port_a.len() < port_b.len() {
        assert(b[port_a.len() as int] == port_b[port_a.len() as int]);
    }
    if port_b.len() < port_a.len() {
        assert(a[port_b.len() as int] == port_a[port_b.len() as int]);
    }
    assert(port_a =~= port_b) by {
        assert forall|i: int| 0 <= i < port_a.len() implies port_a[i] == port_b[i] by {
            assert(port_a[i] == a[i]);
            assert(port_b[i] == b[i]);
        }
    }
    // The second separator ends the channel.
    let start: int = port_a.len() as int + 1;
    if channel_a.len() < channel_b.len() {
        assert(b[start + channel_a.len()] == channel_b[channel_a.len() as int]);
    }
    if channel_b.len() < channel_a.len() {
        assert(a[start + channel_b.len()] == channel_a[channel_b.len() as int]);
    }
    assert(channel_a =~= channel_b) by {
        assert forall|i: int| 0 <= i < channel_a.len() implies channel_a[i] == channel_b[i] by {
            assert(channel_a[i] == a[start + i]);
            assert(channel_b[i] == b[start + i]);
        }
    }
}

} // verus!
