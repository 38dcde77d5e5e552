//! General properties of classification and of the stream, stated once and
//! proved for every input.

use crate::arg::{classify, option_body, split_name, split_value, valid_name, ParsedArgView, DASH};
use crate::error::UsageErrorView;
use crate::stream::{next_spec, ArgView, ArgsView};
use vstd::prelude::*;
use vstd::utf8::decode_utf8;

verus! {

/// Every token shorter than two bytes, or not beginning with a dash,
/// classifies as positional, the token itself unchanged.
pub proof fn lemma_positional_identity(t: Seq<u8>)
    requires
        t.len() < 2 || t[0] != DASH,
    ensures
        classify(t) == Ok::<ParsedArgView, Seq<u8>>(ParsedArgView::Positional(t)),
{
}

/// The two-byte token `--`, and no other token, is the end-of-options
/// marker.
pub proof fn lemma_end_of_flags_token(t: Seq<u8>)
    ensures
        classify(t) == Ok::<ParsedArgView, Seq<u8>>(ParsedArgView::EndOfFlags) <==> t =~= seq![
            DASH,
            DASH,
        ],
{
    if t =~= seq![DASH, DASH] {
        assert(t.len() == 2 && t[0] == DASH && t[1] == DASH);
    }
    if classify(t) == Ok::<ParsedArgView, Seq<u8>>(ParsedArgView::EndOfFlags) {
        assert(t.len() == 2 && t[0] == DASH && t[1] == DASH);
        assert(t =~= seq![DASH, DASH]);
    }
}

/// Once options are disabled, they stay disabled, and every remaining token
/// comes back positional and unexamined, whatever its shape; the stream
/// ends only when the sequence is exhausted.
pub proof fn lemma_options_stay_disabled(s: ArgsView)
    requires
        !s.options_enabled,
    ensures
        !next_spec(s).0.options_enabled,
        s.remaining.len() == 0 ==> next_spec(s).1 == ArgView::End,
        s.remaining.len() > 0 ==> next_spec(s).1 == ArgView::Positional(s.remaining[0])
            && next_spec(s).0.remaining == s.remaining.skip(1),
{
}

/// The stream state after `n` further steps.
pub open spec fn advance(s: ArgsView, n: nat) -> ArgsView
    decreases n,
{
    if n == 0 {
        s
    } else {
        advance(next_spec(s).0, (n - 1) as nat)
    }
}

/// Disabling options is permanent: however many steps a disabled stream
/// takes, options stay disabled and no step classifies a token, so every
/// token after the end-of-options marker comes back positional.
pub proof fn lemma_options_never_reenabled(s: ArgsView, n: nat)
    requires
        !s.options_enabled,
    ensures
        !advance(s, n).options_enabled,
        advance(s, n).remaining.len() > 0 ==> next_spec(advance(s, n)).1 == ArgView::Positional(
            advance(s, n).remaining[0],
        ),
        advance(s, n).remaining.len() == 0 ==> next_spec(advance(s, n)).1 == ArgView::End,
    decreases n,
{
    if n > 0 {
        lemma_options_never_reenabled(next_spec(s).0, (n - 1) as nat);
    }
}

/// The end-of-options marker disables options in the state the step leaves
/// behind, and is itself never surfaced as an item.
pub proof fn lemma_marker_disables_options(s: ArgsView)
    requires
        s.options_enabled,
        s.remaining.len() > 0,
        classify(s.remaining[0]) == Ok::<ParsedArgView, Seq<u8>>(ParsedArgView::EndOfFlags),
    ensures
        !next_spec(s).0.options_enabled,
        !(next_spec(s).1 matches ArgView::Named(_)),
        !(next_spec(s).1 matches ArgView::Error(_)),
{
}

/// Single and double leading dashes are equivalent: for any option body
/// that does not begin with a dash (every valid name guarantees that), the
/// tokens `-body` and `--body` classify to the very same result whenever
/// either succeeds, and fail together otherwise.
pub proof fn lemma_dash_equivalence(body: Seq<u8>)
    requires
        body.len() > 0,
        body[0] != DASH,
    ensures
        ({
            let single = seq![DASH] + body;
            let double = seq![DASH, DASH] + body;
            &&& classify(single) is Ok <==> classify(double) is Ok
            &&& classify(single) is Ok ==> classify(single) == classify(double)
        }),
{
    let single = seq![DASH] + body;
    let double = seq![DASH, DASH] + body;
    assert(single.len() == 1 + body.len());
    assert(double.len() == 2 + body.len());
    assert(single[0] == DASH && single[1] == body[0]);
    assert(double[0] == DASH && double[1] == DASH);
    assert(option_body(single) =~= body);
    assert(option_body(double) =~= body);
}

/// A token in option shape whose name part is invalid (empty, holding a
/// byte outside the name charset, or edge-hyphenated) always fails
/// classification, the original token returned unaltered.
pub proof fn lemma_invalid_name_rejected(t: Seq<u8>)
    requires
        t.len() >= 2,
        t[0] == DASH,
        !(t.len() == 2 && t[1] == DASH),
        !valid_name(split_name(option_body(t))),
    ensures
        classify(t) == Err::<ParsedArgView, Seq<u8>>(t),
{
}

/// What one step of an active stream yields for a token that classifies as
/// a named option: the option's name and inline value, the token consumed
/// and options still enabled.
pub proof fn lemma_named_step(s: ArgsView, name: Seq<u8>)
    requires
        s.options_enabled,
        s.remaining.len() > 0,
        classify(s.remaining[0]) == Ok::<ParsedArgView, Seq<u8>>(
            ParsedArgView::Named(decode_utf8(name), split_value(option_body(s.remaining[0]))),
        ),
    ensures
        next_spec(s).1 matches ArgView::Named(n) && n.name == decode_utf8(name) && n.value
            == split_value(option_body(s.remaining[0])),
        next_spec(s).0.remaining == s.remaining.skip(1),
        next_spec(s).0.options_enabled,
{
}

/// A token that fails classification surfaces as an invalid-argument error
/// carrying that token; the stream state is not corrupted: the token is
/// consumed and option parsing stays active, so the caller may keep
/// draining.
pub proof fn lemma_error_step(s: ArgsView)
    requires
        s.options_enabled,
        s.remaining.len() > 0,
        classify(s.remaining[0]) is Err,
    ensures
        next_spec(s).1 == ArgView::Error(UsageErrorView::InvalidArgument { arg: s.remaining[0] }),
        next_spec(s).0.remaining == s.remaining.skip(1),
        next_spec(s).0.options_enabled,
{
}

} // verus!
