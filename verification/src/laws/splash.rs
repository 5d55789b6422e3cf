//! What the splash widget shows, runs and sends.
use vstd::prelude::*;

use crate::json::{distinct_keys, entry_found, text_member, Json};
use crate::makepad_host::agent_splash::{
    code_to_run, fenced_code, flushed, is_new_response, last_block, progressed, response_wire,
    stream_text, stream_updates, updates_view, wrapped, SplashView, StreamUpdate, EMPTY_VIEW,
    END_FENCE, EVALUATION_ERROR, RUN_FENCE, SPLASH_PREFIX, SPLASH_SUFFIX,
};
use crate::makepad_host::StreamPieceView;
use crate::text::{contains, first_place, first_place_is_within, joined, occurs_at};

verus! {

/// The fences: the opening one begins like the closing one, and holds no other
/// backtick.
proof fn fences()
    ensures
        END_FENCE@ == seq!['`', '`', '`'],
        RUN_FENCE@.len() == 12,
        RUN_FENCE@.take(3) == END_FENCE@,
        forall|i: int| 3 <= i < 12 ==> RUN_FENCE@[i] != '`',
{
    reveal_strlit("```");
    reveal_strlit("```runsplash");
    assert(END_FENCE@ =~= seq!['`', '`', '`']);
    assert(RUN_FENCE@.take(3) =~= END_FENCE@);
}

/// Where the first pattern in a text stands, if none begins before it.
proof fn first_place_known(before: Seq<char>, pattern: Seq<char>, after: Seq<char>)
    requires
        pattern.len() > 0,
        !contains((before + pattern).drop_last(), pattern),
    ensures
        first_place(before + pattern + after, pattern) == Some(before.len() as int),
{
    let text = before + pattern + after;
    let n = before.len() as int;
    assert(text.subrange(n, n + pattern.len()) =~= pattern);
    assert(occurs_at(text, pattern, n));
    first_place_is_within(text, pattern);
    let at = first_place(text, pattern)->Some_0;
    if at < n {
        let head = (before + pattern).drop_last();
        assert(head.subrange(at, at + pattern.len()) =~= text.subrange(at, at + pattern.len()));
        assert(text.subrange(at, at + pattern.len()) =~= pattern);
        assert(occurs_at(head, pattern, at));
    }
}

/// A text with a block of code in it: something, the opening fence, the code,
/// the closing fence, and something.
pub open spec fn with_block(before: Seq<char>, code: Seq<char>, rest: Seq<char>) -> Seq<char> {
    before + "```runsplash"@ + code + "```"@ + rest
}

/// No fence opens a block before the one behind `before`, and none closes it
/// before the end of `code`.
pub open spec fn fences_stand_alone(before: Seq<char>, code: Seq<char>) -> bool {
    &&& !contains((before + "```runsplash"@).drop_last(), "```runsplash"@)
    &&& !contains((code + "```"@).drop_last(), "```"@)
}

/// Where the two fences stand in a text, there is a block.
proof fn block_stands(text: Seq<char>, at: int, close: int)
    requires
        0 <= at,
        0 <= close,
        occurs_at(text, RUN_FENCE@, at),
        occurs_at(text.skip(at + RUN_FENCE@.len()), END_FENCE@, close),
    ensures
        at + 12 + close + 3 <= text.len(),
        text == with_block(
            text.take(at),
            text.skip(at + 12).take(close),
            text.skip(at + 12 + close + 3),
        ),
{
    fences();
    let behind = text.skip(at + 12);
    assert(text =~= text.take(at) + text.subrange(at, at + 12) + behind);
    assert(behind =~= behind.take(close) + behind.subrange(close, close + 3) + behind.skip(
        close + 3,
    ));
    assert(behind.skip(close + 3) =~= text.skip(at + 12 + close + 3));
    assert(text.take(at) + RUN_FENCE@ + (behind.take(close) + END_FENCE@ + behind.skip(close + 3))
        =~= with_block(text.take(at), behind.take(close), behind.skip(close + 3)));
}

/// Where the fences of a block stand.
proof fn fences_of_block(before: Seq<char>, code: Seq<char>, rest: Seq<char>)
    ensures
        ({
            let text = with_block(before, code, rest);
            let from = before.len() + 12;
            &&& text == before + RUN_FENCE@ + (code + END_FENCE@ + rest)
            &&& text.len() == from + code.len() + 3 + rest.len()
            &&& text.skip(from as int) == code + END_FENCE@ + rest
            &&& text.skip((from + code.len() + 3) as int) == rest
            &&& occurs_at(text, RUN_FENCE@, before.len() as int)
            &&& occurs_at(text, END_FENCE@, (from + code.len()) as int)
        }),
{
    fences();
    let text = with_block(before, code, rest);
    let n = before.len() as int;
    let from = n + 12;
    assert(text =~= before + RUN_FENCE@ + (code + END_FENCE@ + rest));
    assert(text.skip(from) =~= code + END_FENCE@ + rest);
    assert(text.skip(from + code.len() + 3) =~= rest);
    assert(text.subrange(n, from) =~= RUN_FENCE@);
    assert(text.subrange(from + code.len(), from + code.len() + 3) =~= END_FENCE@);
}

/// The code that is found is the whole of what was written between the fences,
/// whatever it holds, and whatever stands around them.
pub proof fn code_between_fences_is_found_whole(
    before: Seq<char>,
    code: Seq<char>,
    rest: Seq<char>,
)
    requires
        fences_stand_alone(before, code),
    ensures
        fenced_code(with_block(before, code, rest)) == Some(code),
{
    fences();
    fences_of_block(before, code, rest);
    let behind = code + END_FENCE@ + rest;
    first_place_known(before, RUN_FENCE@, behind);
    first_place_known(code, END_FENCE@, rest);
    assert(behind.take(code.len() as int) =~= code);
}

/// What is found as code stands in the text between the two fences.
pub proof fn found_code_stands_between_fences(text: Seq<char>) -> (around: (Seq<char>, Seq<char>))
    ensures
        fenced_code(text) matches Some(code) ==> text == with_block(around.0, code, around.1),
{
    fences();
    if fenced_code(text) is Some {
        first_place_is_within(text, RUN_FENCE@);
        let at = first_place(text, RUN_FENCE@)->Some_0;
        let behind = text.skip(at + RUN_FENCE@.len());
        first_place_is_within(behind, END_FENCE@);
        let close = first_place(behind, END_FENCE@)->Some_0;
        block_stands(text, at, close);
        (text.take(at), text.skip(at + 12 + close + 3))
    } else {
        (text, text)
    }
}

/// Wherever two fences stand in that order, code is found.
pub proof fn fences_in_order_give_code(before: Seq<char>, code: Seq<char>, rest: Seq<char>)
    ensures
        fenced_code(with_block(before, code, rest)) is Some,
{
    fences();
    fences_of_block(before, code, rest);
    let text = with_block(before, code, rest);
    first_place_is_within(text, RUN_FENCE@);
    let at = first_place(text, RUN_FENCE@)->Some_0;
    let behind = text.skip(at + 12);
    let i = before.len() + code.len() - at;
    assert(behind.subrange(i, i + 3) =~= text.subrange(
        before.len() + 12int + code.len(),
        before.len() + 12int + code.len() + 3,
    ));
    assert(occurs_at(behind, END_FENCE@, i));
}

/// Code that comes whole in a batch of text is run, whole, whatever text came
/// before the batch.
pub proof fn code_in_a_batch_is_run(
    text: Seq<char>,
    before: Seq<char>,
    code: Seq<char>,
    rest: Seq<char>,
)
    requires
        fences_stand_alone(before, code),
    ensures
        code_to_run(text, with_block(before, code, rest)) == Some(code),
{
    code_between_fences_is_found_whole(before, code, rest);
}

/// Code that comes in pieces is run, whole, when its last piece comes: it does
/// not matter where the text was cut.
pub proof fn code_in_pieces_is_run(
    before: Seq<char>,
    code: Seq<char>,
    rest: Seq<char>,
    cut: int,
)
    requires
        fences_stand_alone(before, code),
        !contains("```"@ + rest, "```runsplash"@),
        0 <= cut < with_block(before, code, rest).len() - rest.len(),
    ensures
        ({
            let whole = with_block(before, code, rest);
            code_to_run(whole.take(cut), whole.skip(cut)) == Some(code)
        }),
{
    fences_of_block(before, code, rest);
    let whole = with_block(before, code, rest);
    if cut <= before.len() {
        fewer_before(before, cut);
        assert(whole.skip(cut) =~= with_block(before.skip(cut), code, rest));
        code_between_fences_is_found_whole(before.skip(cut), code, rest);
    } else {
        no_block_behind(before, code, rest, cut);
        only_block(before, code, rest);
        assert(whole.take(cut) + whole.skip(cut) =~= whole);
    }
}

proof fn fewer_before(before: Seq<char>, cut: int)
    requires
        0 <= cut <= before.len(),
        !contains((before + RUN_FENCE@).drop_last(), RUN_FENCE@),
    ensures
        !contains((before.skip(cut) + RUN_FENCE@).drop_last(), RUN_FENCE@),
{
    fences();
    let head = (before + RUN_FENCE@).drop_last();
    let part = (before.skip(cut) + RUN_FENCE@).drop_last();
    if contains(part, RUN_FENCE@) {
        let at = choose|at: int| occurs_at(part, RUN_FENCE@, at);
        assert(head.subrange(at + cut, at + cut + 12) =~= part.subrange(at, at + 12));
        assert(occurs_at(head, RUN_FENCE@, at + cut));
    }
}

proof fn no_block_behind(before: Seq<char>, code: Seq<char>, rest: Seq<char>, cut: int)
    requires
        fences_stand_alone(before, code),
        !contains("```"@ + rest, "```runsplash"@),
        before.len() < cut <= with_block(before, code, rest).len(),
    ensures
        fenced_code(with_block(before, code, rest).skip(cut)) is None,
{
    fences();
    let whole = with_block(before, code, rest);
    let batch = whole.skip(cut);
    if contains(batch, RUN_FENCE@) {
        let at = choose|at: int| occurs_at(batch, RUN_FENCE@, at);
        later_fences_do_not_open(before, code, rest, at + cut);
        assert(whole.subrange(at + cut, at + cut + 12) =~= batch.subrange(at, at + 12));
        assert(occurs_at(whole, RUN_FENCE@, at + cut));
    }
}

proof fn only_block(before: Seq<char>, code: Seq<char>, rest: Seq<char>)
    requires
        fences_stand_alone(before, code),
        !contains("```"@ + rest, "```runsplash"@),
    ensures
        last_block(with_block(before, code, rest)) == Some(
            (code, before.len() + 12int + code.len() + 3),
        ),
{
    fences();
    fences_of_block(before, code, rest);
    let behind = code + END_FENCE@ + rest;
    first_place_known(before, RUN_FENCE@, behind);
    first_place_known(code, END_FENCE@, rest);
    assert(behind.take(code.len() as int) =~= code);
    no_block_in(rest);
    last_block_is_here_or_behind(
        with_block(before, code, rest),
        before.len() as int,
        code.len() as int,
    );
}

proof fn no_block_in(rest: Seq<char>)
    requires
        !contains("```"@ + rest, "```runsplash"@),
    ensures
        last_block(rest) is None,
{
    fences();
    if contains(rest, RUN_FENCE@) {
        let at = choose|at: int| occurs_at(rest, RUN_FENCE@, at);
        let tail = END_FENCE@ + rest;
        assert(tail.subrange(at + 3, at + 3 + 12) =~= rest.subrange(at, at + 12));
        assert(occurs_at(tail, RUN_FENCE@, at + 3));
    }
}

/// Behind the opening fence of a block no other one opens.
proof fn later_fences_do_not_open(
    before: Seq<char>,
    code: Seq<char>,
    rest: Seq<char>,
    at: int,
)
    requires
        fences_stand_alone(before, code),
        !contains("```"@ + rest, "```runsplash"@),
        at > before.len(),
    ensures
        !occurs_at(with_block(before, code, rest), "```runsplash"@, at),
{
    fences();
    let whole = with_block(before, code, rest);
    let n = before.len() as int;
    let from = n + 12;
    if occurs_at(whole, RUN_FENCE@, at) {
        let found = whole.subrange(at, at + 12);
        assert(found == RUN_FENCE@);
        assert(found[0] == RUN_FENCE@.take(3)[0]);
        assert(found[1] == RUN_FENCE@.take(3)[1]);
        assert(found[2] == RUN_FENCE@.take(3)[2]);
        assert(whole[at] == '`' && whole[at + 1] == '`' && whole[at + 2] == '`');
        if at < from {
            assert(whole.subrange(n, from) =~= RUN_FENCE@);
            assert(whole.subrange(n, from)[3] == whole[n + 3]);
            if at - n >= 3 {
                assert(whole.subrange(n, from)[at - n] == whole[at]);
            } else if at - n == 2 {
                assert(whole[at + 1] == whole[n + 3]);
            } else {
                assert(whole[at + 2] == whole[n + 3]);
            }
        } else if at < from + code.len() {
            let head = (code + END_FENCE@).drop_last();
            let i = at - from;
            assert(head.subrange(i, i + 3) =~= END_FENCE@) by {
                assert(head[i] == whole[at]);
                assert(head[i + 1] == whole[at + 1]);
                assert(head[i + 2] == whole[at + 2]);
            }
            assert(occurs_at(head, END_FENCE@, i));
        } else {
            let tail = END_FENCE@ + rest;
            let i = at - from - code.len();
            assert(tail.subrange(i, i + 12) =~= found);
            assert(occurs_at(tail, RUN_FENCE@, i));
        }
    }
}

/// Code is run only when it comes: what is run stands between fences in the
/// text, and its closing fence ends within the batch.
pub proof fn run_code_ends_in_the_batch(text: Seq<char>, batch: Seq<char>) -> (around: (
    Seq<char>,
    Seq<char>,
))
    ensures
        code_to_run(text, batch) matches Some(code) ==> text + batch == with_block(
            around.0,
            code,
            around.1,
        ) && around.1.len() < batch.len(),
{
    fences();
    let whole = text + batch;
    if fenced_code(batch) is Some {
        let code = fenced_code(batch)->Some_0;
        let (before, rest) = found_code_stands_between_fences(batch);
        block_behind(text, before, code, rest);
        fences_of_block(before, code, rest);
        (text + before, rest)
    } else {
        let before = last_block_splits(whole);
        match last_block(whole) {
            Some((_, end)) => (before, whole.skip(end)),
            None => (text, text),
        }
    }
}

proof fn last_block_splits(text: Seq<char>) -> (before: Seq<char>)
    ensures
        last_block(text) matches Some((code, end)) ==> 0 <= end <= text.len() && text == with_block(
            before,
            code,
            text.skip(end),
        ),
    decreases text.len(),
{
    fences();
    if last_block(text) is Some {
        first_place_is_within(text, RUN_FENCE@);
        let at = first_place(text, RUN_FENCE@)->Some_0;
        let behind = text.skip(at + 12);
        first_place_is_within(behind, END_FENCE@);
        let close = first_place(behind, END_FENCE@)->Some_0;
        block_stands(text, at, close);
        last_block_is_here_or_behind(text, at, close);
        let next = at + 12 + close + 3;
        let tail = text.skip(next);
        let before = last_block_splits(tail);
        match last_block(tail) {
            Some((code, end)) => {
                block_behind(text.take(next), before, code, tail.skip(end));
                assert(tail.skip(end) =~= text.skip(next + end));
                assert(text =~= text.take(next) + tail);
                text.take(next) + before
            },
            None => text.take(at),
        }
    } else {
        text
    }
}

proof fn last_block_is_here_or_behind(text: Seq<char>, at: int, close: int)
    requires
        first_place(text, RUN_FENCE@) == Some(at),
        first_place(text.skip(at + 12), END_FENCE@) == Some(close),
    ensures
        last_block(text) == match last_block(text.skip(at + 12 + close + 3)) {
            Some((code, end)) => Some((code, at + 12 + close + 3 + end)),
            None => Some((text.skip(at + 12).take(close), at + 12 + close + 3)),
        },
{
    fences();
}

proof fn block_behind(front: Seq<char>, before: Seq<char>, code: Seq<char>, rest: Seq<char>)
    ensures
        front + with_block(before, code, rest) == with_block(front + before, code, rest),
{
    assert(front + with_block(before, code, rest) =~= with_block(front + before, code, rest));
}

/// A block that is complete has no say in what comes after it: code that comes
/// behind it is found as if it were not there, and it is not run again.
pub proof fn finished_blocks_are_left_behind(
    before: Seq<char>,
    code: Seq<char>,
    text: Seq<char>,
    batch: Seq<char>,
)
    requires
        fences_stand_alone(before, code),
    ensures
        code_to_run(with_block(before, code, text), batch) == code_to_run(text, batch),
{
    fences();
    let rest = text + batch;
    let whole = with_block(before, code, rest);
    assert(with_block(before, code, text) + batch =~= whole);
    fences_of_block(before, code, text);
    fences_of_block(before, code, rest);
    let behind = code + END_FENCE@ + rest;
    first_place_known(before, RUN_FENCE@, behind);
    first_place_known(code, END_FENCE@, rest);
    last_block_is_here_or_behind(whole, before.len() as int, code.len() as int);
}

/// Text without a backtick runs nothing, so code is not run twice.
pub proof fn plain_text_runs_nothing(text: Seq<char>, batch: Seq<char>)
    requires
        forall|i: int| 0 <= i < batch.len() ==> batch[i] != '`',
    ensures
        code_to_run(text, batch) is None,
{
    fences();
    let (before, rest) = run_code_ends_in_the_batch(text, batch);
    if code_to_run(text, batch) is Some {
        let code = code_to_run(text, batch)->Some_0;
        let whole = text + batch;
        let last = whole.len() - rest.len() - 1;
        assert(with_block(before, code, rest)[last] == '`');
        assert(whole[last] == batch[last - text.len()]);
    }
}

/// Pieces of streamed text, as they come from the runtime.
pub open spec fn as_pieces(deltas: Seq<Seq<char>>) -> Seq<StreamPieceView> {
    deltas.map_values(|d: Seq<char>| StreamPieceView::Delta(d))
}

proof fn deltas_wait(text: Seq<char>, deltas: Seq<Seq<char>>)
    ensures
        progressed(text, as_pieces(deltas)).text == text,
        progressed(text, as_pieces(deltas)).updates.len() == 0,
        progressed(text, as_pieces(deltas)).batch == deltas,
    decreases deltas.len(),
{
    if deltas.len() == 0 {
        assert(as_pieces(deltas) =~= seq![]);
        assert(progressed(text, as_pieces(deltas)).batch =~= deltas);
    } else {
        deltas_wait(text, deltas.drop_last());
        assert(as_pieces(deltas).drop_last() =~= as_pieces(deltas.drop_last()));
        assert(deltas.drop_last().push(deltas.last()) =~= deltas);
    }
}

/// Streamed text that comes at once is shown once: all that came before it in
/// the stream, and all of it behind that, together with the code it brings.
pub proof fn a_batch_is_shown_whole(text: Seq<char>, deltas: Seq<Seq<char>>)
    requires
        deltas.len() > 0,
    ensures
        stream_updates(text, as_pieces(deltas)).len() == 1,
        stream_updates(text, as_pieces(deltas))[0].0 == text + joined(deltas, seq![]),
        stream_updates(text, as_pieces(deltas))[0].1 == code_to_run(text, joined(deltas, seq![])),
        stream_text(text, as_pieces(deltas)) == text + joined(deltas, seq![]),
{
    deltas_wait(text, deltas);
}

/// A response is shown as it is, behind what was to be shown before it, and the
/// end of a stream shows nothing; behind both, the text of the stream is empty.
pub proof fn responses_and_ends_settle_the_stream(
    text: Seq<char>,
    pieces: Seq<StreamPieceView>,
    content: Seq<char>,
)
    ensures
        ({
            let with_response = pieces.push(StreamPieceView::Response(content));
            let with_end = pieces.push(StreamPieceView::Complete);
            &&& stream_updates(text, with_response) == stream_updates(text, pieces).push(
                (content, None),
            )
            &&& stream_updates(text, with_end) == stream_updates(text, pieces)
            &&& stream_text(text, with_response).len() == 0
            &&& stream_text(text, with_end).len() == 0
        }),
{
    let with_response = pieces.push(StreamPieceView::Response(content));
    let with_end = pieces.push(StreamPieceView::Complete);
    assert(with_response.drop_last() =~= pieces);
    assert(with_end.drop_last() =~= pieces);
    let before = progressed(text, pieces);
    assert(flushed(before).batch.len() == 0);
}

/// What was to be shown before settled text stays to be shown, in its order.
pub proof fn streams_show_in_order(
    text: Seq<char>,
    pieces: Seq<StreamPieceView>,
    deltas: Seq<Seq<char>>,
)
    requires
        pieces.len() > 0,
        !(pieces.last() is Delta),
        deltas.len() > 0,
    ensures
        stream_updates(text, pieces + as_pieces(deltas)) == stream_updates(text, pieces).push(
            (joined(deltas, seq![]), code_to_run(seq![], joined(deltas, seq![]))),
        ),
{
    let before = progressed(text, pieces);
    let settled = flushed(progressed(text, pieces.drop_last()));
    assert(before.batch =~= seq![]);
    assert(before.text =~= seq![]);
    deltas_wait_behind(text, pieces, deltas);
    assert(Seq::<char>::empty() + joined(deltas, seq![]) =~= joined(deltas, seq![]));
    assert(settled.batch.len() == 0);
}

proof fn deltas_wait_behind(
    text: Seq<char>,
    pieces: Seq<StreamPieceView>,
    deltas: Seq<Seq<char>>,
)
    requires
        progressed(text, pieces).batch == Seq::<Seq<char>>::empty(),
    ensures
        ({
            let after = progressed(text, pieces + as_pieces(deltas));
            &&& after.text == progressed(text, pieces).text
            &&& after.updates == progressed(text, pieces).updates
            &&& after.batch == deltas
        }),
    decreases deltas.len(),
{
    let all = pieces + as_pieces(deltas);
    if deltas.len() == 0 {
        assert(all =~= pieces);
        assert(progressed(text, all).batch =~= deltas);
    } else {
        deltas_wait_behind(text, pieces, deltas.drop_last());
        assert(all.drop_last() =~= pieces + as_pieces(deltas.drop_last()));
        assert(all.last() == StreamPieceView::Delta(deltas.last()));
        assert(deltas.drop_last().push(deltas.last()) =~= deltas);
    }
}

/// A body is evaluated as it stands, between the beginning and the end of a view
/// with the widgets that the host knows by name, and with nothing else.
pub proof fn evaluated_code_is_prefix_body_suffix(body: Seq<char>)
    ensures
        wrapped(body) == "use mod.prelude.widgets.*View{width:Fill height:Fit flow:Down "@ + body
            + r#"  __run_splash := mod.widgets.AgentSplash{width:Fill height:Fit is_root:false}
  __pi_status := Label{text:" " height:Fit width:Fill}
  __ai_text := Label{text:" " height:Fit width:Fill}
  __pi_response := Label{text:"" visible:false}
  __pi_data := Label{text:" " visible:false}"#@,
        ({
            let code = wrapped(body);
            let p = SPLASH_PREFIX@.len() as int;
            let n = body.len() as int;
            &&& code.len() == p + n + SPLASH_SUFFIX@.len()
            &&& code.take(p) == SPLASH_PREFIX@
            &&& code.subrange(p, p + n) == body
            &&& code.skip(p + n) == SPLASH_SUFFIX@
        }),
{
    let code = wrapped(body);
    let p = SPLASH_PREFIX@.len() as int;
    let n = body.len() as int;
    assert(code.take(p) =~= SPLASH_PREFIX@);
    assert(code.subrange(p, p + n) =~= body);
    assert(code.skip(p + n) =~= SPLASH_SUFFIX@);
}

/// Without a body an empty view is evaluated, and a body that gives no view is
/// reported.
pub proof fn empty_and_broken_bodies_are_told_apart()
    ensures
        EMPTY_VIEW@ == "use mod.prelude.widgets.*View{width:Fill height:Fit}"@,
        EVALUATION_ERROR@ == "Failed to evaluate Splash DSL body"@,
{
}

/// Updates are seen one by one: the whole text and the code to run, if any.
pub proof fn updates_are_seen_whole(updates: Seq<StreamUpdate>, i: int)
    ensures
        updates_view(updates).len() == updates.len(),
        0 <= i < updates.len() ==> updates_view(updates)[i].0 == updates[i].ai_text@,
        0 <= i < updates.len() ==> (updates[i].run_splash matches Some(code) ==> updates_view(
            updates,
        )[i].1 == Some(code@)),
        0 <= i < updates.len() ==> (updates[i].run_splash is None ==> updates_view(updates)[i].1
            is None),
{
}

/// The message of a response is an object of two members: its kind, and the
/// whole response.
pub proof fn responses_are_sent_whole(response: Seq<char>)
    ensures
        text_member(response_wire(response), "type"@) == Some("pi_response"@),
        text_member(response_wire(response), "content"@) == Some(response),
        response_wire(response) matches Json::Object(entries) && entries.len() == 2,
{
    let entries = response_wire(response)->Object_0;
    reveal_strlit("type");
    reveal_strlit("content");
    assert("type"@.len() != "content"@.len());
    assert(distinct_keys(entries));
    entry_found(entries, 0);
    entry_found(entries, 1);
}

/// A response is sent exactly where there is one and it differs from the last.
pub proof fn new_responses_are_sent(widget: SplashView, text: Seq<char>)
    ensures
        is_new_response(widget, text) <==> (text != Seq::<char>::empty() && text
            != widget.last_response),
{
    assert(text.len() == 0 ==> text =~= Seq::<char>::empty());
}

} // verus!
