//! What holds of attaching as a whole, whatever happens in which order.

use vstd::prelude::*;

use crate::attaching::{
    attach_outcome, attached, carried, carried_model, choice_model, confirmed, dismissed, follows,
    initial, next_shown, payload, prepared, prepared_drop, queued, reply_taken, selection, sending,
    sendings, sent_at, sizes_read, still_composing, AppState, Attached, Confirmation, Delivery,
    Destination, Outcome, Pending, PendingPastePreview, Preparation, Prepared, Sending,
    WhatsAppApp,
};
use crate::dimensions::{header_reads, sides_come_from_the_header, Sides};
use crate::echo::Content;
use crate::message::{problem, Reference};
use crate::paste_preview::{thumbnail, thumbnails};
use crate::picked::{Choice, Chosen, PickedFile};

verus! {

/// One thing that happens to the application.
pub enum Step {
    /// A choice comes back to the conversation and the draft it captured.
    Attach { jid: Seq<char>, reply: Option<Reference>, chosen: Result<Choice, Seq<char>> },
    /// A selection is queued as it stands.
    Queue { preview: Pending },
    /// The surface is offered to the selection that has waited longest.
    ShowNext,
    /// The selection on the surface is cancelled.
    Cancel,
    /// The selection on the surface is confirmed, and its pictures are read to
    /// have these sides.
    Confirm { sizes: Seq<Sides> },
    /// A captured draft is consumed on its own.
    TakeReply { reply: Option<Reference> },
    /// A listener for file drops was installed.
    Listen,
    /// The person starts another reply, or none.
    Draft { reply: Option<Reference> },
    /// The person goes elsewhere.
    Open {
        destination: Destination,
        selected_chat: Option<Seq<char>>,
        visible_chat: Option<Seq<char>>,
    },
    /// The session comes or goes.
    Connection { connected: bool, client: bool },
}

/// The application after a step.
pub open spec fn after(state: AppState, step: Step) -> AppState {
    match step {
        Step::Attach { jid, reply, chosen } => attached(state, jid, reply, chosen),
        Step::Queue { preview } => queued(state, preview),
        Step::ShowNext => next_shown(state),
        Step::Cancel => dismissed(state),
        Step::Confirm { .. } => confirmed(state),
        Step::TakeReply { reply } => reply_taken(state, reply),
        Step::Listen => AppState { file_drop_listener: true, ..state },
        Step::Draft { reply } => AppState { reply_to: reply, ..state },
        Step::Open { destination, selected_chat, visible_chat } => AppState {
            destination,
            selected_chat,
            visible_chat,
            ..state
        },
        Step::Connection { connected, client } => AppState { connected, client, ..state },
    }
}

/// The application after a run of steps.
pub open spec fn run(state: AppState, steps: Seq<Step>) -> AppState
    decreases steps.len(),
{
    if steps.len() == 0 {
        state
    } else {
        after(run(state, steps.drop_last()), steps.last())
    }
}

/// The selection that a step accepts, if it accepts one.
pub open spec fn accepted_by(state: AppState, step: Step) -> Seq<Pending> {
    match step {
        Step::Attach { jid, reply, chosen: Ok(choice) } => if choice.files.len() > 0 {
            seq![selection(state, jid, reply, choice.files)]
        } else {
            Seq::empty()
        },
        Step::Queue { preview } => seq![preview],
        _ => Seq::empty(),
    }
}

/// The selections that a run of steps accepts, in order.
pub open spec fn accepted(state: AppState, steps: Seq<Step>) -> Seq<Pending>
    decreases steps.len(),
{
    if steps.len() == 0 {
        Seq::empty()
    } else {
        accepted(state, steps.drop_last()) + accepted_by(
            run(state, steps.drop_last()),
            steps.last(),
        )
    }
}

/// The selection that a step confirms or cancels, if it does.
pub open spec fn settled_by(state: AppState, step: Step) -> Seq<Pending> {
    match (step, state.paste_preview) {
        (Step::Cancel, Some(preview)) => seq![preview],
        (Step::Confirm { .. }, Some(preview)) => seq![preview],
        _ => Seq::empty(),
    }
}

/// The selections that a run of steps confirms or cancels, in order.
pub open spec fn settled(state: AppState, steps: Seq<Step>) -> Seq<Pending>
    decreases steps.len(),
{
    if steps.len() == 0 {
        Seq::empty()
    } else {
        settled(state, steps.drop_last()) + settled_by(
            run(state, steps.drop_last()),
            steps.last(),
        )
    }
}

/// The selection that a step confirms, if it does.
pub open spec fn confirmed_by(state: AppState, step: Step) -> Seq<Pending> {
    match (step, state.paste_preview) {
        (Step::Confirm { .. }, Some(preview)) => seq![preview],
        _ => Seq::empty(),
    }
}

/// The selections that a run of steps confirms, in order.
pub open spec fn confirmations(state: AppState, steps: Seq<Step>) -> Seq<Pending>
    decreases steps.len(),
{
    if steps.len() == 0 {
        Seq::empty()
    } else {
        confirmations(state, steps.drop_last()) + confirmed_by(
            run(state, steps.drop_last()),
            steps.last(),
        )
    }
}

/// What a step sends.
pub open spec fn sent_by(state: AppState, step: Step) -> Seq<Sending> {
    match (step, state.paste_preview) {
        (Step::Confirm { sizes }, Some(preview)) => sendings(state.client, preview, sizes),
        _ => Seq::empty(),
    }
}

/// What a run of steps sends, in order.
pub open spec fn sent(state: AppState, steps: Seq<Step>) -> Seq<Sending>
    decreases steps.len(),
{
    if steps.len() == 0 {
        Seq::empty()
    } else {
        sent(state, steps.drop_last()) + sent_by(run(state, steps.drop_last()), steps.last())
    }
}

/// The selections that wait, the one on the surface first.
pub open spec fn in_line(state: AppState) -> Seq<Pending> {
    match state.paste_preview {
        Some(preview) => seq![preview] + state.waiting,
        None => state.waiting,
    }
}

/// Nothing waits behind a free surface.
pub open spec fn lined_up(state: AppState) -> bool {
    state.paste_preview is None ==> state.waiting.len() == 0
}

/// Law: a selection that is queued goes to the end of the line, and the order
/// of the others does not change.
pub proof fn queueing_joins_the_end_of_the_line(state: AppState, preview: Pending)
    requires
        lined_up(state),
    ensures
        in_line(queued(state, preview)) == in_line(state).push(preview),
        lined_up(queued(state, preview)),
{
    assert(in_line(queued(state, preview)) =~= in_line(state).push(preview));
}

/// Law: settling takes the first selection out of the line, and only that one.
pub proof fn settling_takes_the_first_of_the_line(state: AppState)
    requires
        lined_up(state),
    ensures
        in_line(state).len() > 0 ==> in_line(dismissed(state)) == in_line(state).drop_first(),
        in_line(state).len() == 0 ==> dismissed(state) == state && confirmed(state) == state,
        in_line(confirmed(state)) == in_line(dismissed(state)),
        lined_up(dismissed(state)),
        lined_up(confirmed(state)),
{
    if state.paste_preview is Some {
        assert(in_line(dismissed(state)) =~= in_line(state).drop_first());
        assert(in_line(confirmed(state)) =~= in_line(state).drop_first());
    }
}

/// One step keeps the account of the line.
proof fn lemma_step(state: AppState, step: Step)
    requires
        lined_up(state),
    ensures
        lined_up(after(state, step)),
        in_line(state) + accepted_by(state, step) == settled_by(state, step) + in_line(
            after(state, step),
        ),
{
    match step {
        Step::Attach { jid, reply, chosen: Ok(choice) } => {
            if choice.files.len() > 0 {
                queueing_joins_the_end_of_the_line(
                    state,
                    selection(state, jid, reply, choice.files),
                );
            }
        },
        Step::Queue { preview } => {
            queueing_joins_the_end_of_the_line(state, preview);
        },
        Step::Cancel => {
            settling_takes_the_first_of_the_line(state);
        },
        Step::Confirm { .. } => {
            settling_takes_the_first_of_the_line(state);
        },
        _ => {
            assert(in_line(after(state, step)) =~= in_line(state));
        },
    }
    assert(in_line(state) + accepted_by(state, step) =~= settled_by(state, step) + in_line(
        after(state, step),
    ));
}

/// Law: whatever happens in which order, the selections that were in line and
/// those accepted since are the ones settled since and those still in line, in
/// the same order: none is lost, none comes twice and none overtakes another.
/// Nothing ever waits behind a free surface.
pub proof fn selections_settle_in_the_order_of_acceptance(state: AppState, steps: Seq<Step>)
    requires
        lined_up(state),
    ensures
        lined_up(run(state, steps)),
        in_line(state) + accepted(state, steps) == settled(state, steps) + in_line(
            run(state, steps),
        ),
    decreases steps.len(),
{
    if steps.len() == 0 {
        assert(in_line(state) + accepted(state, steps) =~= settled(state, steps) + in_line(
            run(state, steps),
        ));
    } else {
        let before = steps.drop_last();
        let step = steps.last();
        let middle = run(state, before);
        selections_settle_in_the_order_of_acceptance(state, before);
        lemma_step(middle, step);
        assert(in_line(state) + accepted(state, steps) =~= (in_line(state) + accepted(
            state,
            before,
        )) + accepted_by(middle, step));
        assert(settled(state, before) + (in_line(middle) + accepted_by(middle, step)) =~= (settled(
            state,
            before,
        ) + in_line(middle)) + accepted_by(middle, step));
        assert(settled(state, before) + (settled_by(middle, step) + in_line(after(middle, step)))
            =~= settled(state, steps) + in_line(run(state, steps)));
    }
}

/// Law: the application starts with an empty line.
pub proof fn the_line_starts_empty()
    ensures
        lined_up(initial()),
        in_line(initial()).len() == 0,
{
}

/// A selection has files, and a place for the picture of each.
pub open spec fn complete(preview: Pending) -> bool {
    &&& preview.files.len() > 0
    &&& preview.images == thumbnails(preview.files)
}

/// Whether every selection of a line is complete.
pub open spec fn all_complete(line: Seq<Pending>) -> bool {
    forall|i: int| 0 <= i < line.len() ==> complete(#[trigger] line[i])
}

/// Law: a selection that stands on the surface or behind it has files and a
/// place for the picture of each, as long as those queued as they stand do.
pub proof fn every_selection_in_line_is_complete(state: AppState, steps: Seq<Step>)
    requires
        lined_up(state),
        all_complete(in_line(state)),
        forall|i: int|
            0 <= i < steps.len() ==> match #[trigger] steps[i] {
                Step::Queue { preview } => complete(preview),
                _ => true,
            },
    ensures
        all_complete(in_line(run(state, steps))),
    decreases steps.len(),
{
    if steps.len() > 0 {
        let before = steps.drop_last();
        let step = steps.last();
        let middle = run(state, before);
        assert forall|i: int| 0 <= i < before.len() implies match #[trigger] before[i] {
            Step::Queue { preview } => complete(preview),
            _ => true,
        } by {
            assert(before[i] == steps[i]);
        }
        every_selection_in_line_is_complete(state, before);
        selections_settle_in_the_order_of_acceptance(state, before);
        lemma_step(middle, step);
        assert(step == steps[steps.len() - 1]);
        let whole = in_line(middle) + accepted_by(middle, step);
        let left = settled_by(middle, step).len();
        assert forall|i: int| 0 <= i < in_line(run(state, steps)).len() implies complete(
            #[trigger] in_line(run(state, steps))[i],
        ) by {
            assert(in_line(run(state, steps))[i] == whole[i + left]);
        }
    }
}

/// Law: files chosen while nothing waits are on the surface at once, and
/// confirming sends just them, to the conversation they were chosen for.
pub proof fn confirming_sends_what_was_chosen(
    state: AppState,
    jid: Seq<char>,
    reply: Option<Reference>,
    files: Seq<PickedFile>,
    refused: Seq<Seq<char>>,
    sizes: Seq<Sides>,
)
    requires
        lined_up(state),
        in_line(state).len() == 0,
        files.len() > 0,
    ensures
        ({
            let asked = attached(state, jid, reply, Ok(Choice { files, refused }));
            let chosen = selection(state, jid, reply, files);
            &&& asked.paste_preview == Some(chosen)
            &&& asked.reply_to == state.reply_to
            &&& carried(asked, sizes) is Some
            &&& carried(asked, sizes)->0.jid == jid
            &&& carried(asked, sizes)->0.deliveries == sendings(state.client, chosen, sizes)
            &&& in_line(confirmed(asked)).len() == 0
        }),
{
}

/// Law: confirming again is a no-op unless another selection has moved up, and
/// then it is that one that is sent.
pub proof fn confirming_twice_sends_once(state: AppState, sizes: Seq<Sides>)
    requires
        lined_up(state),
    ensures
        in_line(state).len() <= 1 ==> carried(confirmed(state), sizes) is None && confirmed(
            confirmed(state),
        ) == confirmed(state),
        in_line(state).len() > 1 ==> carried(confirmed(state), sizes) is Some && carried(
            confirmed(state),
            sizes,
        )->0.deliveries == sendings(state.client, in_line(state)[1], sizes),
{
}

/// The files of a selection, each with the conversation it goes to.
pub open spec fn addressed(preview: Pending) -> Seq<(Seq<char>, PickedFile)> {
    Seq::new(preview.files.len(), |i: int| (preview.jid, preview.files[i]))
}

/// The files of a run of selections, each with its own conversation, in order.
pub open spec fn all_addressed(previews: Seq<Pending>) -> Seq<(Seq<char>, PickedFile)>
    decreases previews.len(),
{
    if previews.len() == 0 {
        Seq::empty()
    } else {
        all_addressed(previews.drop_last()) + addressed(previews.last())
    }
}

/// Whether what was sent, or handed back for want of a client, is this file
/// and, if it was sent, went to this conversation.
pub open spec fn carries(sending: Sending, jid: Seq<char>, file: PickedFile) -> bool {
    match sending {
        Sending::Sent { jid: to, payload: sent, .. } => to == jid && sent == payload(file),
        Sending::Refused { file: back, .. } => back == file,
    }
}

/// Whether each of `part` stands in `whole` at its place of `places`, in order.
pub open spec fn embeds(part: Seq<Pending>, whole: Seq<Pending>, places: Seq<int>) -> bool {
    &&& places.len() == part.len()
    &&& forall|i: int|
        0 <= i < places.len() ==> 0 <= #[trigger] places[i] < whole.len() && whole[places[i]]
            == part[i]
    &&& forall|i: int, j: int| 0 <= i < j < places.len() ==> places[i] < places[j]
}

/// Whether `part` is what is left of `whole` when some are taken out.
pub open spec fn is_subsequence(part: Seq<Pending>, whole: Seq<Pending>) -> bool {
    exists|places: Seq<int>| #[trigger] embeds(part, whole, places)
}

/// Law: what a run sends is the files of the selections it confirms: each file
/// exactly once, in order, and each to the conversation of its own selection.
pub proof fn a_run_sends_each_confirmed_file_once(state: AppState, steps: Seq<Step>)
    ensures
        sent(state, steps).len() == all_addressed(confirmations(state, steps)).len(),
        forall|i: int|
            0 <= i < sent(state, steps).len() ==> carries(
                #[trigger] sent(state, steps)[i],
                all_addressed(confirmations(state, steps))[i].0,
                all_addressed(confirmations(state, steps))[i].1,
            ),
    decreases steps.len(),
{
    if steps.len() > 0 {
        let before = steps.drop_last();
        let step = steps.last();
        let middle = run(state, before);
        a_run_sends_each_confirmed_file_once(state, before);
        let earlier = confirmations(state, before);
        let now = confirmed_by(middle, step);
        if now.len() > 0 {
            assert((earlier + now).drop_last() =~= earlier);
            assert((earlier + now).last() == now[0]);
        } else {
            assert(earlier + now =~= earlier);
        }
    }
}

/// Law: the selections that a run confirms are among those it settles, in the
/// same order.
pub proof fn confirmed_selections_are_settled_in_order(state: AppState, steps: Seq<Step>)
    ensures
        is_subsequence(confirmations(state, steps), settled(state, steps)),
    decreases steps.len(),
{
    if steps.len() == 0 {
        assert(embeds(confirmations(state, steps), settled(state, steps), Seq::<int>::empty()));
    } else {
        let before = steps.drop_last();
        let step = steps.last();
        let middle = run(state, before);
        confirmed_selections_are_settled_in_order(state, before);
        let part = confirmations(state, before);
        let whole = settled(state, before);
        let places = choose|places: Seq<int>| #[trigger] embeds(part, whole, places);
        if confirmed_by(middle, step).len() > 0 {
            assert(embeds(
                confirmations(state, steps),
                settled(state, steps),
                places.push(whole.len() as int),
            ));
        } else {
            assert(embeds(confirmations(state, steps), settled(state, steps), places));
        }
    }
}

/// Law: the selections that a run confirms are among those that were in line
/// and those accepted since, in the same order: nothing else is ever sent, and
/// no selection is sent twice.
pub proof fn only_accepted_selections_are_sent(state: AppState, steps: Seq<Step>)
    requires
        lined_up(state),
    ensures
        is_subsequence(confirmations(state, steps), in_line(state) + accepted(state, steps)),
{
    confirmed_selections_are_settled_in_order(state, steps);
    selections_settle_in_the_order_of_acceptance(state, steps);
    let part = confirmations(state, steps);
    let whole = settled(state, steps);
    let all = in_line(state) + accepted(state, steps);
    let places = choose|places: Seq<int>| #[trigger] embeds(part, whole, places);
    assert forall|k: int| 0 <= k < whole.len() implies k < all.len() && all[k] == whole[k] by {
        assert(all[k] == (whole + in_line(run(state, steps)))[k]);
    }
    assert(embeds(part, all, places));
}

/// Whether a step confirms, or takes or replaces the draft outright.
pub open spec fn touches_draft(step: Step) -> bool {
    step is Confirm || step is TakeReply || step is Draft
}

/// Law: without a confirmation nothing is sent, and the draft being composed
/// stays as it is unless it is taken or replaced outright: no refusal, no
/// dismissed chooser, no accepted selection and no cancellation consumes it.
pub proof fn only_confirming_sends_or_consumes_a_draft(state: AppState, steps: Seq<Step>)
    requires
        forall|i: int|
            0 <= i < steps.len() ==> !touches_draft(#[trigger] steps[i]),
    ensures
        sent(state, steps).len() == 0,
        run(state, steps).reply_to == state.reply_to,
    decreases steps.len(),
{
    if steps.len() > 0 {
        let before = steps.drop_last();
        assert forall|i: int| 0 <= i < before.len() implies !touches_draft(
            #[trigger] before[i],
        ) by {
            assert(before[i] == steps[i]);
        }
        only_confirming_sends_or_consumes_a_draft(state, before);
        assert(!touches_draft(steps[steps.len() - 1]));
    }
}

/// Law: a draft that was started after the selection captured its own is not
/// consumed by confirming the selection.
pub proof fn a_newer_draft_survives(
    state: AppState,
    preview: Pending,
    draft: Reference,
    sizes: Seq<Sides>,
)
    requires
        state.paste_preview == Some(preview),
        state.reply_to == Some(draft),
        match preview.reply {
            Some(captured) => captured.message_id != draft.message_id,
            None => true,
        },
    ensures
        confirmed(state).reply_to == Some(draft),
        !carried(state, sizes)->0.reply_cleared,
{
}

/// Law: a confirmed selection is sent whole and in order, each file to the
/// conversation the selection captured and as the kind chosen for it, drawn as
/// that kind, and only the first quoting the captured draft.
pub proof fn a_selection_is_sent_as_it_was_chosen(
    preview: Pending,
    sizes: Seq<Sides>,
    i: int,
)
    requires
        0 <= i < preview.files.len(),
    ensures
        sendings(true, preview, sizes).len() == preview.files.len(),
        match sendings(true, preview, sizes)[i] {
            Sending::Sent { jid, payload: sent, media, quoted } => {
                &&& jid == preview.jid
                &&& sent == payload(preview.files[i])
                &&& sent.kind == preview.files[i].kind
                &&& (sent.kind is Image <==> media.media_type() is Image)
                &&& (sent.kind is Video <==> media.media_type() is Video)
                &&& (sent.kind is Document <==> media.media_type() is Document)
                &&& quoted == if i == 0 {
                    preview.reply
                } else {
                    None
                }
            },
            Sending::Refused { .. } => false,
        },
{
}

/// Law: without a client nothing of a confirmed selection is sent: each file
/// is handed back unchanged, with a line of its own that names it.
pub proof fn without_a_client_each_file_is_refused_by_name(
    preview: Pending,
    sizes: Seq<Sides>,
    i: int,
)
    requires
        0 <= i < preview.files.len(),
    ensures
        sendings(false, preview, sizes).len() == preview.files.len(),
        sendings(false, preview, sizes)[i] == (Sending::Refused {
            file: preview.files[i],
            notice: problem(preview.files[i].file_name + " could not be sent: not connected."@),
        }),
{
}

/// Law: going elsewhere redirects nothing. What a confirmation sends does not
/// depend on what is open, selected or visible, nor on the draft.
pub proof fn going_elsewhere_redirects_nothing(
    here: AppState,
    there: AppState,
    sizes: Seq<Sides>,
)
    requires
        here.paste_preview == there.paste_preview,
        here.client == there.client,
        here.paste_preview is Some,
    ensures
        carried(here, sizes)->0.jid == carried(there, sizes)->0.jid,
        carried(here, sizes)->0.deliveries == carried(there, sizes)->0.deliveries,
        carried(here, sizes)->0.jid == here.paste_preview->0.jid,
{
}

/// Law: a selection keeps the conversation and the draft of the moment in
/// which it was asked for, whatever happens until the files are read.
pub proof fn a_selection_goes_where_it_was_started(
    start: AppState,
    steps: Seq<Step>,
    jid: Seq<char>,
    reply: Option<Reference>,
    files: Seq<PickedFile>,
    refused: Seq<Seq<char>>,
)
    requires
        lined_up(start),
        prepared(start, ()) == (Prepared::Ready { jid, reply, category: () }),
        files.len() > 0,
    ensures
        start.selected_chat == Some(jid),
        start.reply_to == reply,
        ({
            let later = run(start, steps);
            let answered = attached(later, jid, reply, Ok(Choice { files, refused }));
            &&& in_line(answered).len() > 0
            &&& in_line(answered).last().jid == jid
            &&& in_line(answered).last().reply == reply
            &&& in_line(answered).last().files == files
        }),
{
    selections_settle_in_the_order_of_acceptance(start, steps);
    let later = run(start, steps);
    queueing_joins_the_end_of_the_line(later, selection(later, jid, reply, files));
}

/// Law: no files are asked for behind a confirmation, whichever way.
pub proof fn a_confirmation_stands_alone<C>(state: AppState, category: C)
    requires
        state.paste_preview is Some,
    ensures
        prepared(state, category) is Ignored,
        prepared_drop(state) is Ignored,
{
}

/// Law: queueing fills a free surface and otherwise goes behind the others,
/// with the selection unchanged; it touches nothing else.
pub proof fn queueing_touches_only_the_line(state: AppState, preview: Pending)
    ensures
        state.paste_preview is None ==> queued(state, preview).paste_preview == Some(preview)
            && queued(state, preview).waiting == state.waiting,
        state.paste_preview is Some ==> queued(state, preview).paste_preview
            == state.paste_preview && queued(state, preview).waiting == state.waiting.push(preview),
        queued(state, preview).reply_to == state.reply_to,
        queued(state, preview).destination == state.destination,
        queued(state, preview).selected_chat == state.selected_chat,
        queued(state, preview).visible_chat == state.visible_chat,
        queued(state, preview).connected == state.connected,
        queued(state, preview).client == state.client,
        queued(state, preview).file_drop_listener == state.file_drop_listener,
{
}

/// Law: a free surface takes the selection that has waited longest, and one
/// that is taken keeps its own; nothing else changes.
pub proof fn showing_the_next_touches_only_the_line(state: AppState)
    ensures
        state.paste_preview is None && state.waiting.len() > 0 ==> next_shown(state).paste_preview
            == Some(state.waiting[0]) && next_shown(state).waiting == state.waiting.subrange(
            1,
            state.waiting.len() as int,
        ),
        state.paste_preview is Some || state.waiting.len() == 0 ==> next_shown(state) == state,
        next_shown(state).reply_to == state.reply_to,
        next_shown(state).destination == state.destination,
        next_shown(state).selected_chat == state.selected_chat,
        next_shown(state).visible_chat == state.visible_chat,
        next_shown(state).connected == state.connected,
        next_shown(state).client == state.client,
        next_shown(state).file_drop_listener == state.file_drop_listener,
{
}

/// Law: cancelling takes the selection off the surface and shows the one that
/// has waited longest, if one waits; it touches nothing else, and nothing at
/// all where the surface is free.
pub proof fn cancelling_touches_only_the_line(state: AppState)
    ensures
        state.paste_preview is None ==> dismissed(state) == state,
        state.paste_preview is Some && state.waiting.len() == 0 ==> dismissed(
            state,
        ).paste_preview is None && dismissed(state).waiting.len() == 0,
        state.paste_preview is Some && state.waiting.len() > 0 ==> dismissed(state).paste_preview
            == Some(state.waiting[0]) && dismissed(state).waiting == state.waiting.subrange(
            1,
            state.waiting.len() as int,
        ),
        dismissed(state).reply_to == state.reply_to,
        dismissed(state).destination == state.destination,
        dismissed(state).selected_chat == state.selected_chat,
        dismissed(state).visible_chat == state.visible_chat,
        dismissed(state).connected == state.connected,
        dismissed(state).client == state.client,
        dismissed(state).file_drop_listener == state.file_drop_listener,
{
}

/// Law: a captured draft is consumed just where the one being composed answers
/// the same message; nothing else changes.
pub proof fn a_draft_is_consumed_by_its_message(state: AppState, reply: Option<Reference>)
    ensures
        (state.reply_to is Some && reply is Some && state.reply_to->0.message_id
            == reply->0.message_id) ==> still_composing(state, reply) && reply_taken(
            state,
            reply,
        ).reply_to is None,
        !(state.reply_to is Some && reply is Some && state.reply_to->0.message_id
            == reply->0.message_id) ==> !still_composing(state, reply) && reply_taken(
            state,
            reply,
        ).reply_to == state.reply_to,
        reply_taken(state, reply).paste_preview == state.paste_preview,
        reply_taken(state, reply).waiting == state.waiting,
        reply_taken(state, reply).destination == state.destination,
        reply_taken(state, reply).selected_chat == state.selected_chat,
        reply_taken(state, reply).visible_chat == state.visible_chat,
        reply_taken(state, reply).connected == state.connected,
        reply_taken(state, reply).client == state.client,
        reply_taken(state, reply).file_drop_listener == state.file_drop_listener,
{
}

/// Law: confirming consumes the captured draft if it is still being composed,
/// takes the selection off the surface and shows the one that has waited
/// longest; it touches nothing else, and nothing at all where the surface is
/// free.
pub proof fn confirming_touches_only_the_line_and_its_draft(state: AppState)
    ensures
        state.paste_preview is None ==> confirmed(state) == state,
        state.paste_preview is Some && state.waiting.len() == 0 ==> confirmed(
            state,
        ).paste_preview is None && confirmed(state).waiting.len() == 0,
        state.paste_preview is Some && state.waiting.len() > 0 ==> confirmed(state).paste_preview
            == Some(state.waiting[0]) && confirmed(state).waiting == state.waiting.subrange(
            1,
            state.waiting.len() as int,
        ),
        state.paste_preview matches Some(preview) ==> confirmed(state).reply_to == if (
        state.reply_to is Some && preview.reply is Some && state.reply_to->0.message_id
            == preview.reply->0.message_id) {
            None
        } else {
            state.reply_to
        },
        confirmed(state).destination == state.destination,
        confirmed(state).selected_chat == state.selected_chat,
        confirmed(state).visible_chat == state.visible_chat,
        confirmed(state).connected == state.connected,
        confirmed(state).client == state.client,
        confirmed(state).file_drop_listener == state.file_drop_listener,
{
}

/// Law: files are asked for by category just where no confirmation is pending,
/// a conversation is selected and the session is connected; then with that
/// conversation, the draft being composed and that category. Without a
/// connection alone the person is told why; otherwise nothing happens.
pub proof fn asking_captures_the_conversation_and_the_draft<C>(state: AppState, category: C)
    ensures
        state.paste_preview is None && state.selected_chat is Some && state.connected ==> match prepared(
            state,
            category,
        ) {
            Prepared::Ready { jid, reply, category: asked } => Some(jid) == state.selected_chat
                && reply == state.reply_to && asked == category,
            _ => false,
        },
        state.paste_preview is None && state.selected_chat is Some && !state.connected
            ==> match prepared(state, category) {
            Prepared::Refused { notice } => notice.text
                == "Files cannot be sent right now: not connected."@ && notice.tone is Problem,
            _ => false,
        },
        state.paste_preview is Some || state.selected_chat is None ==> prepared(
            state,
            category,
        ) is Ignored,
{
}

/// Law: dropped files are asked for just where no confirmation is pending, the
/// conversations are open, one is selected and the session is connected; then
/// with that conversation and the draft being composed. Without a connection
/// alone the person is told why; otherwise nothing happens.
pub proof fn dropping_captures_the_conversation_and_the_draft(state: AppState)
    ensures
        state.paste_preview is None && state.destination is Chats && state.selected_chat is Some
            && state.connected ==> match prepared_drop(state) {
            Prepared::Ready { jid, reply, .. } => Some(jid) == state.selected_chat && reply
                == state.reply_to,
            _ => false,
        },
        state.paste_preview is None && state.destination is Chats && state.selected_chat is Some
            && !state.connected ==> match prepared_drop(state) {
            Prepared::Refused { notice } => notice.text
                == "Files cannot be sent right now: not connected."@ && notice.tone is Problem,
            _ => false,
        },
        state.paste_preview is Some || state.destination is Elsewhere || state.selected_chat is None
            ==> prepared_drop(state) is Ignored,
{
}

/// Law: a selection is all of the accepted files, in order, for the
/// conversation and under the draft that were captured, with the picture of
/// each file at its place; it knows whether that conversation was on screen.
pub proof fn a_selection_holds_what_was_accepted(
    state: AppState,
    jid: Seq<char>,
    reply: Option<Reference>,
    files: Seq<PickedFile>,
    i: int,
)
    ensures
        selection(state, jid, reply, files).jid == jid,
        selection(state, jid, reply, files).reply == reply,
        selection(state, jid, reply, files).files == files,
        selection(state, jid, reply, files).images.len() == files.len(),
        0 <= i < files.len() ==> selection(state, jid, reply, files).images[i] == thumbnail(
            files[i],
        ),
        selection(state, jid, reply, files).chat_was_visible <==> (state.visible_chat is Some
            && state.visible_chat->0 == jid),
{
}

/// Law: a choice with accepted files puts them, as one selection, on a free
/// surface or behind the others; any other choice changes nothing.
pub proof fn only_accepted_files_join_the_line(
    state: AppState,
    jid: Seq<char>,
    reply: Option<Reference>,
    chosen: Result<Choice, Seq<char>>,
)
    ensures
        chosen is Err ==> attached(state, jid, reply, chosen) == state,
        chosen matches Ok(choice) ==> choice.files.len() == 0 ==> attached(
            state,
            jid,
            reply,
            chosen,
        ) == state,
        chosen matches Ok(choice) ==> choice.files.len() > 0 && state.paste_preview is None
            ==> attached(state, jid, reply, chosen) == (AppState {
            paste_preview: Some(selection(state, jid, reply, choice.files)),
            ..state
        }),
        chosen matches Ok(choice) ==> choice.files.len() > 0 && state.paste_preview is Some
            ==> attached(state, jid, reply, chosen) == (AppState {
            waiting: state.waiting.push(selection(state, jid, reply, choice.files)),
            ..state
        }),
{
}

/// Law: a failed chooser is told in its own words, a dismissed one says
/// nothing, and any other choice says a line for each refusal, in the refusal's
/// own words and in order, whether files were accepted with it or not.
pub proof fn each_refusal_is_told_in_its_own_words(chosen: Result<Choice, Seq<char>>, i: int)
    ensures
        chosen matches Err(error) ==> match attach_outcome(chosen) {
            Outcome::Failed { notice } => notice.text == error && notice.tone is Problem,
            _ => false,
        },
        chosen matches Ok(choice) ==> choice.files.len() == 0 && choice.refused.len() == 0
            ==> attach_outcome(chosen) is Dismissed,
        chosen matches Ok(choice) ==> choice.files.len() == 0 && choice.refused.len() > 0
            ==> match attach_outcome(chosen) {
            Outcome::Refused { notices } => {
                &&& notices.len() == choice.refused.len()
                &&& 0 <= i < notices.len() ==> notices[i].text == choice.refused[i]
                    && notices[i].tone is Problem
            },
            _ => false,
        },
        chosen matches Ok(choice) ==> choice.files.len() > 0 ==> match attach_outcome(chosen) {
            Outcome::Queued { notices } => {
                &&& notices.len() == choice.refused.len()
                &&& 0 <= i < notices.len() ==> notices[i].text == choice.refused[i]
                    && notices[i].tone is Problem
            },
            _ => false,
        },
{
}

/// Law: one file sent with a client hands over the file's own bytes, kind, type
/// and name, no caption and the given quote, to the given conversation, and is
/// drawn as what it goes out as: a picture from its own bytes at the given
/// sides.
pub proof fn a_file_is_sent_whole(
    jid: Seq<char>,
    file: PickedFile,
    quoted: Option<Reference>,
    size: Sides,
)
    ensures
        match sending(true, jid, file, quoted, size) {
            Sending::Sent { jid: to, payload: sent, media, quoted: quote } => {
                &&& to == jid
                &&& sent.bytes == file.bytes
                &&& sent.kind == file.kind
                &&& sent.mime_type == file.mime_type
                &&& sent.file_name == file.file_name
                &&& sent.caption is None
                &&& quote == quoted
                &&& file.kind is Image ==> media == (Content::Image {
                    data: file.bytes,
                    mime_type: file.mime_type,
                    unfetched: false,
                    width: size.0,
                    height: size.1,
                })
                &&& file.kind is Video ==> media == (Content::Video {
                    poster: Seq::empty(),
                    duration: None,
                })
                &&& file.kind is Document ==> media == (Content::Document {
                    mime_type: file.mime_type,
                    file_name: Some(file.file_name),
                })
            },
            Sending::Refused { .. } => false,
        },
        match sending(false, jid, file, quoted, size) {
            Sending::Refused { file: back, notice } => {
                &&& back == file
                &&& notice.text == file.file_name + " could not be sent: not connected."@
                &&& notice.tone is Problem
            },
            Sending::Sent { .. } => false,
        },
{
}

/// Law: confirming with a client sends every file of the selection, in order:
/// each with its own bytes, kind, type and name, to the conversation of the
/// selection, the first quoting the captured draft and no other quoting
/// anything.
pub proof fn every_confirmed_file_is_sent_whole(
    state: AppState,
    preview: Pending,
    sizes: Seq<Sides>,
    i: int,
)
    requires
        state.paste_preview == Some(preview),
        state.client,
        0 <= i < preview.files.len(),
    ensures
        carried(state, sizes) is Some,
        carried(state, sizes)->0.deliveries.len() == preview.files.len(),
        match carried(state, sizes)->0.deliveries[i] {
            Sending::Sent { jid, payload: sent, media, quoted } => {
                &&& jid == preview.jid
                &&& sent.bytes == preview.files[i].bytes
                &&& sent.kind == preview.files[i].kind
                &&& sent.mime_type == preview.files[i].mime_type
                &&& sent.file_name == preview.files[i].file_name
                &&& sent.caption is None
                &&& i == 0 ==> quoted == preview.reply
                &&& i > 0 ==> quoted is None
                &&& preview.files[i].kind is Image ==> match media {
                    Content::Image { data, mime_type, unfetched, .. } => data
                        == preview.files[i].bytes && mime_type == preview.files[i].mime_type
                        && !unfetched,
                    _ => false,
                }
                &&& preview.files[i].kind is Video ==> media is Video
                &&& preview.files[i].kind is Document ==> match media {
                    Content::Document { mime_type, file_name } => mime_type
                        == preview.files[i].mime_type && file_name == Some(
                        preview.files[i].file_name,
                    ),
                    _ => false,
                }
            },
            Sending::Refused { .. } => false,
        },
{
}

/// Law: confirming without a client hands every file back unchanged, in order,
/// each with a line that names it.
pub proof fn every_confirmed_file_is_handed_back_without_a_client(
    state: AppState,
    preview: Pending,
    sizes: Seq<Sides>,
    i: int,
)
    requires
        state.paste_preview == Some(preview),
        !state.client,
        0 <= i < preview.files.len(),
    ensures
        carried(state, sizes) is Some,
        carried(state, sizes)->0.deliveries.len() == preview.files.len(),
        match carried(state, sizes)->0.deliveries[i] {
            Sending::Refused { file, notice } => file == preview.files[i] && notice.text
                == preview.files[i].file_name + " could not be sent: not connected."@
                && notice.tone is Problem,
            Sending::Sent { .. } => false,
        },
{
}

/// Law: every picture of a confirmed selection, whichever its place, is drawn
/// at a width and a height that the header of its own bytes can give.
pub proof fn every_confirmed_picture_is_drawn_at_its_own_size(
    state: AppState,
    preview: Pending,
    sizes: Seq<Sides>,
    i: int,
)
    requires
        state.paste_preview == Some(preview),
        state.client,
        sizes_read(state, sizes),
        0 <= i < preview.files.len(),
        preview.files[i].kind is Image,
    ensures
        carried(state, sizes) is Some,
        carried(state, sizes)->0.deliveries.len() == preview.files.len(),
        match carried(state, sizes)->0.deliveries[i] {
            Sending::Sent { media: Content::Image { width, height, .. }, .. } => {
                ||| width is Some && height is Some && header_reads(
                    preview.files[i].bytes,
                    Some((width->0, height->0)),
                )
                ||| width is None && height is None && header_reads(preview.files[i].bytes, None)
            },
            _ => false,
        },
{
    assert(sent_at(state.client, preview.files[i], sizes[i]));
    sides_come_from_the_header(preview.files[i].bytes, sizes[i]);
}

/// Law: where sides are given for a picture of a confirmed selection, it is
/// drawn at just those.
pub proof fn given_sides_are_drawn_at_their_place(
    state: AppState,
    preview: Pending,
    sizes: Seq<Sides>,
    i: int,
)
    requires
        state.paste_preview == Some(preview),
        state.client,
        0 <= i < preview.files.len(),
        preview.files[i].kind is Image,
    ensures
        carried(state, sizes) is Some,
        match carried(state, sizes)->0.deliveries[i] {
            Sending::Sent { media: Content::Image { width, height, .. }, .. } => {
                &&& i < sizes.len() ==> width == sizes[i].0 && height == sizes[i].1
                &&& i >= sizes.len() ==> width is None && height is None
            },
            _ => false,
        },
{
}

/// Law: a file sent with a client goes out at sides that its own header can
/// give, if it is a picture.
pub proof fn a_sent_picture_is_drawn_at_its_own_size(file: PickedFile, size: Sides)
    requires
        sent_at(true, file, size),
        file.kind is Image,
    ensures
        ({
            ||| size.0 is Some && size.1 is Some && header_reads(
                file.bytes,
                Some((size.0->0, size.1->0)),
            )
            ||| size.0 is None && size.1 is None && header_reads(file.bytes, None)
        }),
{
    sides_come_from_the_header(file.bytes, size);
}

/// Law: a confirmation names the conversation of the selection, knows whether
/// it was on screen and takes the reply bar down just where it consumes the
/// draft; a free surface confirms nothing.
pub proof fn a_confirmation_knows_its_selection(state: AppState, sizes: Seq<Sides>)
    ensures
        state.paste_preview is None ==> carried(state, sizes) is None,
        state.paste_preview matches Some(preview) ==> {
            &&& carried(state, sizes) is Some
            &&& carried(state, sizes)->0.jid == preview.jid
            &&& carried(state, sizes)->0.chat_was_visible == preview.chat_was_visible
            &&& carried(state, sizes)->0.reply_cleared <==> (state.reply_to is Some
                && preview.reply is Some && state.reply_to->0.message_id
                == preview.reply->0.message_id)
            &&& carried(state, sizes)->0.reply_cleared ==> confirmed(state).reply_to is None
        },
{
}

/// Law: the timeline follows a confirmed selection just where some bubble was
/// drawn, its conversation was on screen when the files were accepted, and it
/// is the one selected among the open conversations now.
pub proof fn the_timeline_follows_an_open_conversation(
    state: AppState,
    jid: Seq<char>,
    chat_was_visible: bool,
    drawn: Seq<bool>,
)
    ensures
        follows(state, jid, chat_was_visible, drawn) <==> {
            &&& exists|i: int| 0 <= i < drawn.len() && #[trigger] drawn[i]
            &&& chat_was_visible
            &&& state.destination is Chats
            &&& state.selected_chat is Some
            &&& state.selected_chat->0 == jid
        },
{
    if exists|i: int| 0 <= i < drawn.len() && #[trigger] drawn[i] {
        let i = choose|i: int| 0 <= i < drawn.len() && #[trigger] drawn[i];
        assert(drawn.contains(true)) by {
            assert(drawn[i] == true);
        }
    }
}

/// Law: the application starts in the conversations with nothing selected,
/// nothing on screen, nothing composed and nothing connected.
pub proof fn the_application_starts_with_nothing()
    ensures
        initial().paste_preview is None,
        initial().waiting.len() == 0,
        initial().reply_to is None,
        initial().destination is Chats,
        initial().selected_chat is None,
        initial().visible_chat is None,
        !initial().connected,
        !initial().client,
        !initial().file_drop_listener,
{
}

/// Law: the model of the application holds every part of it, the waiting
/// selections in order.
pub proof fn the_model_of_the_application_is_whole(app: WhatsAppApp, i: int)
    ensures
        app.paste_preview matches Some(preview) ==> app@.paste_preview == Some(preview@),
        app.paste_preview is None ==> app@.paste_preview is None,
        app@.waiting.len() == app.pending_attachment_previews@.len(),
        0 <= i < app@.waiting.len() ==> app@.waiting[i] == app.pending_attachment_previews@[i]@,
        app.reply_to matches Some(draft) ==> app@.reply_to == Some(draft@),
        app.reply_to is None ==> app@.reply_to is None,
        app@.destination == app.destination,
        app.selected_chat matches Some(jid) ==> app@.selected_chat == Some(jid@),
        app.selected_chat is None ==> app@.selected_chat is None,
        app.visible_chat matches Some(jid) ==> app@.visible_chat == Some(jid@),
        app.visible_chat is None ==> app@.visible_chat is None,
        app@.connected == app.connected,
        app@.client == app.client,
        app@.file_drop_listener == app.file_drop_listener,
{
}

/// Law: the model of a selection holds every part of it, files and pictures in
/// order.
pub proof fn the_model_of_a_selection_is_whole(preview: PendingPastePreview, i: int)
    ensures
        preview@.jid == preview.jid@,
        preview.reply matches Some(draft) ==> preview@.reply == Some(draft@),
        preview.reply is None ==> preview@.reply is None,
        preview@.files.len() == preview.files@.len(),
        0 <= i < preview.files@.len() ==> preview@.files[i] == preview.files@[i]@,
        preview@.images.len() == preview.images@.len(),
        0 <= i < preview.images@.len() ==> match preview.images@[i] {
            Some(image) => preview@.images[i] == Some(image@),
            None => preview@.images[i] is None,
        },
        preview@.chat_was_visible == preview.chat_was_visible,
{
}

/// Law: the model of a delivery holds every part of it.
pub proof fn the_model_of_a_delivery_is_whole(delivery: Delivery)
    ensures
        match delivery {
            Delivery::Refused { file, notice } => delivery@ == (Sending::Refused {
                file: file@,
                notice: notice@,
            }),
            Delivery::Sent { outgoing } => match delivery@ {
                Sending::Sent { jid, payload: sent, media, quoted } => {
                    &&& jid == outgoing.jid@
                    &&& sent.bytes == outgoing.attachment.bytes@
                    &&& sent.kind == outgoing.attachment.kind
                    &&& sent.mime_type == outgoing.attachment.mime_type@
                    &&& sent.file_name == outgoing.attachment.file_name@
                    &&& outgoing.attachment.caption matches Some(caption) ==> sent.caption
                        == Some(caption@)
                    &&& outgoing.attachment.caption is None ==> sent.caption is None
                    &&& media == outgoing.media@
                    &&& outgoing.quoted matches Some(quote) ==> quoted == Some(quote@)
                    &&& outgoing.quoted is None ==> quoted is None
                },
                Sending::Refused { .. } => false,
            },
        },
{
}

/// Law: the model of a confirmation holds every part of it, the deliveries in
/// order.
pub proof fn the_model_of_a_confirmation_is_whole(confirmation: Confirmation, i: int)
    ensures
        confirmation@.jid == confirmation.jid@,
        confirmation@.chat_was_visible == confirmation.chat_was_visible,
        confirmation@.reply_cleared == confirmation.reply_cleared,
        confirmation@.deliveries.len() == confirmation.deliveries@.len(),
        0 <= i < confirmation.deliveries@.len() ==> confirmation@.deliveries[i]
            == confirmation.deliveries@[i]@,
        carried_model(Some(confirmation)) == Some(confirmation@),
        carried_model(None) is None,
{
}

/// Law: the model of what came of asking holds every part of it.
pub proof fn the_model_of_a_preparation_is_whole<C>(preparation: Preparation<C>)
    ensures
        match preparation {
            Preparation::Ignored => preparation@ is Ignored,
            Preparation::Refused { notice } => preparation@ == (Prepared::<C>::Refused {
                notice: notice@,
            }),
            Preparation::Ready { jid, reply, category } => match preparation@ {
                Prepared::Ready { jid: to, reply: draft, category: asked } => {
                    &&& to == jid@
                    &&& asked == category
                    &&& reply matches Some(captured) ==> draft == Some(captured@)
                    &&& reply is None ==> draft is None
                },
                _ => false,
            },
        },
{
}

/// Law: the models of a choice and of what came of it hold every part, the
/// lines in order.
pub proof fn the_models_of_a_choice_are_whole(
    chosen: Result<Chosen, String>,
    outcome: Attached,
    i: int,
)
    ensures
        chosen matches Ok(choice) ==> choice_model(chosen) == Ok::<Choice, Seq<char>>(choice@),
        chosen matches Err(error) ==> choice_model(chosen) == Err::<Choice, Seq<char>>(error@),
        match outcome {
            Attached::Failed { notice } => outcome@ == (Outcome::Failed { notice: notice@ }),
            Attached::Dismissed => outcome@ is Dismissed,
            Attached::Refused { notices } => match outcome@ {
                Outcome::Refused { notices: lines } => lines.len() == notices@.len() && (0 <= i
                    < notices@.len() ==> lines[i] == notices@[i]@),
                _ => false,
            },
            Attached::Queued { notices } => match outcome@ {
                Outcome::Queued { notices: lines } => lines.len() == notices@.len() && (0 <= i
                    < notices@.len() ==> lines[i] == notices@[i]@),
                _ => false,
            },
        },
{
}

} // verus!
