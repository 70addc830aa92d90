use vstd::prelude::*;
use crate::buffer::capacity_limit;
use crate::decoder::{ActionView, DecoderView, EventView, StateView, depth_limit};
use crate::disposition::{route_of, RouteView};
use crate::error::Error;
use crate::field::{FieldView, FormDataView, PartHeadView};

verus! {

/// Where a run of events leads, and the actions given on the way. The events
/// are offered one by one; one that the decoder does not take is passed over.
pub open spec fn run<F>(s: DecoderView, events: Seq<EventView<F>>) -> (
    DecoderView,
    Seq<ActionView<F>>,
)
    decreases events.len(),
{
    if events.len() == 0 {
        (s, Seq::empty())
    } else {
        let (mid, actions) = run(s, events.drop_last());
        match mid.step(events.last()) {
            Some((next, action)) => (next, actions.push(action)),
            None => (mid, actions),
        }
    }
}

/// The fields that a run of actions hands to the consumer, in their order.
pub open spec fn emitted<F>(actions: Seq<ActionView<F>>) -> Seq<FieldView<F>>
    decreases actions.len(),
{
    if actions.len() == 0 {
        Seq::empty()
    } else {
        match actions.last() {
            ActionView::Emit(field) => emitted(actions.drop_last()).push(field),
            _ => emitted(actions.drop_last()),
        }
    }
}

/// The chunks that a run of actions hands to storage, in their order.
pub open spec fn written<F>(actions: Seq<ActionView<F>>) -> Seq<Seq<u8>>
    decreases actions.len(),
{
    if actions.len() == 0 {
        Seq::empty()
    } else {
        match actions.last() {
            ActionView::Write(chunk) => written(actions.drop_last()).push(chunk),
            _ => written(actions.drop_last()),
        }
    }
}

/// The chunks of a body, one behind the other.
pub open spec fn joined(chunks: Seq<Seq<u8>>) -> Seq<u8>
    decreases chunks.len(),
{
    if chunks.len() == 0 {
        Seq::empty()
    } else {
        joined(chunks.drop_last()) + chunks.last()
    }
}

/// A run over two stretches of events is the run over the first, followed
/// from where it ended by the run over the second.
pub proof fn lemma_run_concat<F>(s: DecoderView, a: Seq<EventView<F>>, b: Seq<EventView<F>>)
    ensures
        run(s, a + b) == (run(run(s, a).0, b).0, run(s, a).1 + run(run(s, a).0, b).1),
    decreases b.len(),
{
    if b.len() > 0 {
        lemma_run_concat(s, a, b.drop_last());
        assert((a + b).drop_last() =~= a + b.drop_last());
    }
}

/// A run over one event is one step.
pub proof fn lemma_run_one<F>(s: DecoderView, event: EventView<F>)
    ensures
        run(s, seq![event]) == match s.step(event) {
            Some((next, action)) => (next, seq![action]),
            None => (s, Seq::empty()),
        },
{
    assert(run(s, seq![event].drop_last()) == (s, Seq::<ActionView<F>>::empty()));
}

/// The fields handed out over two stretches of actions are those of the
/// first followed by those of the second.
pub proof fn lemma_emitted_concat<F>(a: Seq<ActionView<F>>, b: Seq<ActionView<F>>)
    ensures
        emitted(a + b) == emitted(a) + emitted(b),
    decreases b.len(),
{
    if b.len() > 0 {
        lemma_emitted_concat(a, b.drop_last());
        assert((a + b).drop_last() =~= a + b.drop_last());
    }
}

/// Once the output has ended, no event is taken: nothing more is asked of
/// the part source and nothing more is handed out.
pub proof fn law_terminal_is_final<F>(s: DecoderView, events: Seq<EventView<F>>)
    requires
        s.terminal(),
    ensures
        run(s, events) == (s, Seq::<ActionView<F>>::empty()),
    decreases events.len(),
{
    if events.len() > 0 {
        law_terminal_is_final(s, events.drop_last());
    }
}

/// A leaf part whose disposition is form data without a name is passed
/// over: the decoder stays between parts, asks for the next item, and hands
/// out neither a field nor an error.
pub proof fn law_nameless_part_is_skipped<F>(s: DecoderView, head: PartHeadView)
    requires
        s.state is Idle,
        head.content_disposition is Some,
        head.content_disposition.unwrap().form_data,
        head.content_disposition.unwrap().name is None,
    ensures
        s.step::<F>(EventView::Leaf(head)) == Some((s, ActionView::<F>::NextItem)),
{
}

/// A leaf part without a disposition, or with one that is not form data,
/// ends the output with `NotFormData`: whatever events follow, nothing more
/// is handed out.
pub proof fn law_not_form_data_aborts<F>(
    s: DecoderView,
    head: PartHeadView,
    later: Seq<EventView<F>>,
)
    requires
        s.state is Idle,
        head.content_disposition is None || !head.content_disposition.unwrap().form_data,
    ensures
        run(s, seq![EventView::Leaf(head)] + later) == (
            s.with(StateView::Failed),
            seq![ActionView::<F>::Fail(Error::NotFormData)],
        ),
{
    let first = seq![EventView::<F>::Leaf(head)];
    lemma_run_one(s, EventView::<F>::Leaf(head));
    lemma_run_concat(s, first, later);
    law_terminal_is_final(s.with(StateView::Failed), later);
}

/// The events of a body that arrives whole: one for each chunk, in order.
pub open spec fn chunk_events<F>(chunks: Seq<Seq<u8>>) -> Seq<EventView<F>> {
    Seq::new(chunks.len(), |i: int| EventView::Chunk(chunks[i]))
}

/// A run of `n` requests for the next chunk.
pub open spec fn chunk_requests<F>(n: nat) -> Seq<ActionView<F>> {
    Seq::new(n, |i: int| ActionView::NextChunk)
}

/// The events of a leaf part that is gathered in memory and arrives whole.
pub open spec fn data_events<F>(head: PartHeadView, chunks: Seq<Seq<u8>>) -> Seq<EventView<F>> {
    seq![EventView::Leaf(head)] + chunk_events(chunks) + seq![EventView::PartEnd]
}

/// The field that a data part makes.
pub open spec fn data_field<F>(head: PartHeadView, name: Seq<char>, chunks: Seq<Seq<u8>>) -> FieldView<
    F,
> {
    head.accepted().field(FormDataView::Data { name, value: joined(chunks) })
}

/// Requests for chunks hand out no field and write nothing.
pub proof fn lemma_requests_are_silent<F>(n: nat)
    ensures
        emitted(chunk_requests::<F>(n)) == Seq::<FieldView<F>>::empty(),
        written(chunk_requests::<F>(n)) == Seq::<Seq<u8>>::empty(),
    decreases n,
{
    if n > 0 {
        lemma_requests_are_silent::<F>((n - 1) as nat);
        assert(chunk_requests::<F>(n).drop_last() =~= chunk_requests::<F>((n - 1) as nat));
    }
}

/// While a data part is gathered, each chunk is put behind what is held and
/// the next one is asked for.
pub proof fn lemma_buffering_run<F>(s: DecoderView, chunks: Seq<Seq<u8>>)
    requires
        s.state is Buffering,
        s.state->Buffering_value.len() + joined(chunks).len() <= capacity_limit(),
    ensures
        run(s, chunk_events::<F>(chunks)) == (
            s.with(
                StateView::Buffering {
                    head: s.state->Buffering_head,
                    name: s.state->Buffering_name,
                    value: s.state->Buffering_value + joined(chunks),
                },
            ),
            chunk_requests::<F>(chunks.len()),
        ),
    decreases chunks.len(),
{
    let value = s.state->Buffering_value;
    if chunks.len() > 0 {
        let front = chunks.drop_last();
        lemma_buffering_run::<F>(s, front);
        assert(chunk_events::<F>(chunks).drop_last() =~= chunk_events::<F>(front));
        assert((value + joined(front)) + chunks.last() =~= value + joined(chunks));
    }
}

/// A leaf part with a name and no file name, whose chunks arrive whole,
/// makes exactly one field: data under that name, whose value is the chunks
/// one behind the other. The decoder is then between parts again.
pub proof fn law_data_part<F>(
    s: DecoderView,
    head: PartHeadView,
    name: Seq<char>,
    chunks: Seq<Seq<u8>>,
)
    requires
        s.state is Idle,
        head.content_disposition is Some,
        head.content_disposition.unwrap().form_data,
        head.content_disposition.unwrap().name == Some(name),
        head.content_disposition.unwrap().filename is None,
        joined(chunks).len() <= capacity_limit(),
    ensures
        run(s, data_events::<F>(head, chunks)) == (
            s,
            chunk_requests::<F>(chunks.len() + 1).push(
                ActionView::Emit(data_field(head, name, chunks)),
            ),
        ),
        emitted(run(s, data_events::<F>(head, chunks)).1) == seq![
            data_field::<F>(head, name, chunks),
        ],
{
    let leaf = seq![EventView::<F>::Leaf(head)];
    let end = seq![EventView::<F>::PartEnd];
    let field = data_field::<F>(head, name, chunks);
    let s1 = s.with(
        StateView::Buffering { head: head.accepted(), name, value: Seq::empty() },
    );
    let s2 = s.with(
        StateView::Buffering { head: head.accepted(), name, value: joined(chunks) },
    );
    lemma_run_one(s, EventView::<F>::Leaf(head));
    lemma_buffering_run::<F>(s1, chunks);
    lemma_run_one(s2, EventView::<F>::PartEnd);
    lemma_run_concat(s, leaf, chunk_events::<F>(chunks));
    lemma_run_concat(s, leaf + chunk_events::<F>(chunks), end);
    let actions = chunk_requests::<F>(chunks.len() + 1).push(ActionView::Emit(field));
    lemma_requests_are_silent::<F>(chunks.len() + 1);
    assert(actions.drop_last() =~= chunk_requests::<F>(chunks.len() + 1));
}

/// The chunks handed to storage over two stretches of actions are those of
/// the first followed by those of the second.
pub proof fn lemma_written_concat<F>(a: Seq<ActionView<F>>, b: Seq<ActionView<F>>)
    ensures
        written(a + b) == written(a) + written(b),
    decreases b.len(),
{
    if b.len() > 0 {
        lemma_written_concat(a, b.drop_last());
        assert((a + b).drop_last() =~= a + b.drop_last());
    }
}

/// The events of a body that arrives whole and is written without fault:
/// each chunk, and behind it the word that it is written.
pub open spec fn spool_events<F>(chunks: Seq<Seq<u8>>) -> Seq<EventView<F>>
    decreases chunks.len(),
{
    if chunks.len() == 0 {
        Seq::empty()
    } else {
        spool_events(chunks.drop_last()) + seq![
            EventView::Chunk(chunks.last()),
            EventView::Written,
        ]
    }
}

/// The actions that spool a body: each chunk is handed to storage, and
/// behind it the next one is asked for.
pub open spec fn spool_actions<F>(chunks: Seq<Seq<u8>>) -> Seq<ActionView<F>>
    decreases chunks.len(),
{
    if chunks.len() == 0 {
        Seq::empty()
    } else {
        spool_actions(chunks.drop_last()) + seq![
            ActionView::Write(chunks.last()),
            ActionView::NextChunk,
        ]
    }
}

/// The events of a leaf part that is spooled, arrives whole and is stored
/// without fault; `file` is the handle that the rewind gives back.
pub open spec fn file_events<F>(head: PartHeadView, chunks: Seq<Seq<u8>>, file: F) -> Seq<
    EventView<F>,
> {
    seq![EventView::Leaf(head), EventView::Opened] + spool_events(chunks) + seq![
        EventView::PartEnd,
        EventView::Rewound(file),
    ]
}

/// The field that a file part makes.
pub open spec fn file_field<F>(
    head: PartHeadView,
    name: Seq<char>,
    filename: Seq<char>,
    file: F,
) -> FieldView<F> {
    head.accepted().field(FormDataView::File { name, filename, file })
}

/// The actions that a file part is answered with.
pub open spec fn file_actions<F>(
    head: PartHeadView,
    name: Seq<char>,
    filename: Seq<char>,
    chunks: Seq<Seq<u8>>,
    file: F,
) -> Seq<ActionView<F>> {
    seq![ActionView::Open, ActionView::NextChunk] + spool_actions(chunks) + seq![
        ActionView::Rewind,
        ActionView::Emit(file_field(head, name, filename, file)),
    ]
}

/// A run over two events is two steps.
pub proof fn lemma_run_two<F>(s: DecoderView, first: EventView<F>, second: EventView<F>)
    ensures
        run(s, seq![first, second]) == (
            run(run(s, seq![first]).0, seq![second]).0,
            run(s, seq![first]).1 + run(run(s, seq![first]).0, seq![second]).1,
        ),
{
    lemma_run_concat(s, seq![first], seq![second]);
    assert(seq![first] + seq![second] =~= seq![first, second]);
}

/// What a single action hands out and what it writes.
pub proof fn lemma_single_action<F>(action: ActionView<F>)
    ensures
        emitted(seq![action]) == match action {
            ActionView::Emit(field) => seq![field],
            _ => Seq::empty(),
        },
        written(seq![action]) == match action {
            ActionView::Write(chunk) => seq![chunk],
            _ => Seq::empty(),
        },
{
    let one = seq![action];
    assert(emitted(one.drop_last()) =~= Seq::<FieldView<F>>::empty());
    assert(written(one.drop_last()) =~= Seq::<Seq<u8>>::empty());
}

/// What two actions in a row hand out and what they write.
pub proof fn lemma_two_actions<F>(first: ActionView<F>, second: ActionView<F>)
    ensures
        emitted(seq![first, second]) == emitted(seq![first]) + emitted(seq![second]),
        written(seq![first, second]) == written(seq![first]) + written(seq![second]),
{
    assert(seq![first] + seq![second] =~= seq![first, second]);
    lemma_emitted_concat(seq![first], seq![second]);
    lemma_written_concat(seq![first], seq![second]);
}

/// Spooling hands exactly the chunks of the body to storage, in their order,
/// and hands out no field.
pub proof fn lemma_spool_actions<F>(chunks: Seq<Seq<u8>>)
    ensures
        written(spool_actions::<F>(chunks)) == chunks,
        emitted(spool_actions::<F>(chunks)) == Seq::<FieldView<F>>::empty(),
    decreases chunks.len(),
{
    if chunks.len() > 0 {
        let front = chunks.drop_last();
        let tail = seq![ActionView::<F>::Write(chunks.last()), ActionView::NextChunk];
        lemma_spool_actions::<F>(front);
        lemma_written_concat(spool_actions::<F>(front), tail);
        lemma_emitted_concat(spool_actions::<F>(front), tail);
        lemma_two_actions(ActionView::<F>::Write(chunks.last()), ActionView::NextChunk);
        lemma_single_action(ActionView::<F>::Write(chunks.last()));
        lemma_single_action(ActionView::<F>::NextChunk);
    }
}

/// While a file part is spooled, each chunk is handed to storage as it
/// came, and the next is asked for once it is written.
pub proof fn lemma_spooling_run<F>(s: DecoderView, chunks: Seq<Seq<u8>>)
    requires
        s.state is Spooling,
        s.state->Spooling_phase is Draining,
    ensures
        run(s, spool_events::<F>(chunks)) == (s, spool_actions::<F>(chunks)),
    decreases chunks.len(),
{
    if chunks.len() > 0 {
        let front = chunks.drop_last();
        let chunk = EventView::<F>::Chunk(chunks.last());
        lemma_spooling_run::<F>(s, front);
        lemma_run_concat(s, spool_events::<F>(front), seq![chunk, EventView::Written]);
        lemma_run_two(s, chunk, EventView::<F>::Written);
        lemma_run_one(s, chunk);
        lemma_run_one(run(s, seq![chunk]).0, EventView::<F>::Written);
    }
}

/// A leaf part with a name and a file name, whose chunks arrive whole and
/// are stored without fault, makes exactly one field: a file under those
/// names, with the handle that the rewind gave back. Storage is opened
/// before the first chunk is asked for, and it is handed the chunks of the
/// body as they came, in their order, before it is rewound. The decoder is
/// then between parts again.
pub proof fn law_file_part<F>(
    s: DecoderView,
    head: PartHeadView,
    name: Seq<char>,
    filename: Seq<char>,
    chunks: Seq<Seq<u8>>,
    file: F,
)
    requires
        s.state is Idle,
        head.content_disposition is Some,
        head.content_disposition.unwrap().form_data,
        head.content_disposition.unwrap().name == Some(name),
        head.content_disposition.unwrap().filename == Some(filename),
    ensures
        run(s, file_events(head, chunks, file)) == (
            s,
            file_actions(head, name, filename, chunks, file),
        ),
        emitted(file_actions(head, name, filename, chunks, file)) == seq![
            file_field(head, name, filename, file),
        ],
        written(file_actions(head, name, filename, chunks, file)) == chunks,
        joined(written(file_actions(head, name, filename, chunks, file))) == joined(chunks),
{
    let field = file_field(head, name, filename, file);
    let open = seq![EventView::<F>::Leaf(head), EventView::Opened];
    let close = seq![EventView::<F>::PartEnd, EventView::Rewound(file)];
    let asked = seq![ActionView::<F>::Open, ActionView::NextChunk];
    let done = seq![ActionView::<F>::Rewind, ActionView::Emit(field)];
    let draining = s.with(
        StateView::Spooling {
            head: head.accepted(),
            name,
            filename,
            phase: crate::decoder::SpoolPhase::Draining,
        },
    );
    lemma_run_two(s, EventView::<F>::Leaf(head), EventView::Opened);
    lemma_run_one(s, EventView::<F>::Leaf(head));
    lemma_run_one(run(s, seq![EventView::<F>::Leaf(head)]).0, EventView::<F>::Opened);
    lemma_spooling_run::<F>(draining, chunks);
    lemma_run_two(draining, EventView::<F>::PartEnd, EventView::Rewound(file));
    lemma_run_one(draining, EventView::<F>::PartEnd);
    lemma_run_one(run(draining, seq![EventView::<F>::PartEnd]).0, EventView::Rewound(file));
    lemma_run_concat(s, open, spool_events::<F>(chunks));
    lemma_run_concat(s, open + spool_events::<F>(chunks), close);
    lemma_spool_actions::<F>(chunks);
    lemma_emitted_concat(asked, spool_actions::<F>(chunks));
    lemma_emitted_concat(asked + spool_actions::<F>(chunks), done);
    lemma_written_concat(asked, spool_actions::<F>(chunks));
    lemma_written_concat(asked + spool_actions::<F>(chunks), done);
    lemma_two_actions(ActionView::<F>::Open, ActionView::NextChunk);
    lemma_two_actions(ActionView::<F>::Rewind, ActionView::Emit(field));
    lemma_single_action(ActionView::<F>::Open);
    lemma_single_action(ActionView::<F>::NextChunk);
    lemma_single_action(ActionView::<F>::Rewind);
    lemma_single_action(ActionView::Emit(field));
}

/// A leaf part as the part source delivers it when nothing fails: its head,
/// the chunks of its body, and, for a part that is spooled, the handle that
/// the rewind gives back.
pub struct PartScript<F> {
    pub head: PartHeadView,
    pub chunks: Seq<Seq<u8>>,
    pub file: F,
}

impl<F> PartScript<F> {
    /// Where the part goes.
    pub open spec fn route(self) -> RouteView {
        route_of(self.head.content_disposition)
    }

    /// The part makes a field: it is form data with a name, and where it is
    /// gathered in memory its body fits into one buffer.
    pub open spec fn valid(self) -> bool {
        match self.route() {
            RouteView::Data { name } => joined(self.chunks).len() <= capacity_limit(),
            RouteView::File { name, filename } => true,
            _ => false,
        }
    }

    /// The part is form data with a name, and where it is gathered in memory
    /// its first `k` chunks fit into one buffer.
    pub open spec fn fits_before(self, k: int) -> bool {
        match self.route() {
            RouteView::Data { name } => joined(self.chunks.take(k)).len() <= capacity_limit(),
            RouteView::File { name, filename } => true,
            _ => false,
        }
    }

    /// The events of the part up to and without its chunk number `k`.
    pub open spec fn events_before(self, k: int) -> Seq<EventView<F>> {
        match self.route() {
            RouteView::File { name, filename } => seq![
                EventView::Leaf(self.head),
                EventView::Opened,
            ] + spool_events(self.chunks.take(k)),
            _ => seq![EventView::Leaf(self.head)] + chunk_events(self.chunks.take(k)),
        }
    }

    /// The events of the whole part.
    pub open spec fn events(self) -> Seq<EventView<F>> {
        match self.route() {
            RouteView::Data { name } => data_events(self.head, self.chunks),
            RouteView::File { name, filename } => file_events(self.head, self.chunks, self.file),
            _ => seq![EventView::Leaf(self.head)],
        }
    }

    /// The field that the part makes, where it makes one.
    pub open spec fn field(self) -> FieldView<F> {
        match self.route() {
            RouteView::File { name, filename } => file_field(self.head, name, filename, self.file),
            RouteView::Data { name } => data_field(self.head, name, self.chunks),
            _ => data_field(self.head, Seq::empty(), self.chunks),
        }
    }
}

/// The events of a run of leaf parts, one part behind the other.
pub open spec fn parts_events<F>(parts: Seq<PartScript<F>>) -> Seq<EventView<F>>
    decreases parts.len(),
{
    if parts.len() == 0 {
        Seq::empty()
    } else {
        parts_events(parts.drop_last()) + parts.last().events()
    }
}

/// The fields that a run of leaf parts makes, one for each part.
pub open spec fn parts_fields<F>(parts: Seq<PartScript<F>>) -> Seq<FieldView<F>> {
    Seq::new(parts.len(), |i: int| parts[i].field())
}

/// The events of a nested sequence that holds the given leaf parts.
pub open spec fn nested_events<F>(parts: Seq<PartScript<F>>) -> Seq<EventView<F>> {
    seq![EventView::Nested] + parts_events(parts) + seq![EventView::End]
}

/// One valid leaf part, taken between parts, makes its one field and leaves
/// the decoder between parts.
pub proof fn lemma_part_run<F>(s: DecoderView, part: PartScript<F>)
    requires
        s.state is Idle,
        part.valid(),
    ensures
        run(s, part.events()).0 == s,
        emitted(run(s, part.events()).1) == seq![part.field()],
{
    match part.route() {
        RouteView::Data { name } => {
            law_data_part::<F>(s, part.head, name, part.chunks);
        },
        RouteView::File { name, filename } => {
            law_file_part(s, part.head, name, filename, part.chunks, part.file);
        },
        _ => {},
    }
}

/// A run of valid leaf parts makes one field for each part, in the order of
/// the parts, and leaves the decoder between parts.
pub proof fn lemma_parts_run<F>(s: DecoderView, parts: Seq<PartScript<F>>)
    requires
        s.state is Idle,
        forall|i: int| 0 <= i < parts.len() ==> (#[trigger] parts[i]).valid(),
    ensures
        run(s, parts_events(parts)).0 == s,
        emitted(run(s, parts_events(parts)).1) == parts_fields(parts),
    decreases parts.len(),
{
    if parts.len() > 0 {
        let front = parts.drop_last();
        assert forall|i: int| 0 <= i < front.len() implies (#[trigger] front[i]).valid() by {
            assert(front[i] == parts[i]);
        }
        lemma_parts_run(s, front);
        lemma_part_run(s, parts.last());
        lemma_run_concat(s, parts_events(front), parts.last().events());
        lemma_emitted_concat(
            run(s, parts_events(front)).1,
            run(s, parts.last().events()).1,
        );
    }
}

/// A nested sequence of `m` valid leaf parts makes exactly `m` fields, in
/// the order of its parts, and the decoder is then back between the parts of
/// the sequence that holds it.
pub proof fn law_nested_parts<F>(s: DecoderView, parts: Seq<PartScript<F>>)
    requires
        s.state is Idle,
        s.depth < depth_limit(),
        forall|i: int| 0 <= i < parts.len() ==> (#[trigger] parts[i]).valid(),
    ensures
        run(s, nested_events(parts)).0 == s,
        emitted(run(s, nested_events(parts)).1) == parts_fields(parts),
        emitted(run(s, nested_events(parts)).1).len() == parts.len(),
{
    let inner = DecoderView { depth: s.depth + 1, state: s.state };
    let enter = seq![EventView::<F>::Nested];
    let leave = seq![EventView::<F>::End];
    lemma_run_one(s, EventView::<F>::Nested);
    lemma_parts_run(inner, parts);
    lemma_run_one(inner, EventView::<F>::End);
    lemma_run_concat(s, enter, parts_events(parts));
    lemma_run_concat(s, enter + parts_events(parts), leave);
    let acts = run(inner, parts_events(parts)).1;
    lemma_emitted_concat(seq![ActionView::<F>::NextItem], acts);
    lemma_emitted_concat(seq![ActionView::<F>::NextItem] + acts, seq![ActionView::<F>::NextItem]);
    lemma_single_action(ActionView::<F>::NextItem);
}

/// The fields of a nested sequence of valid leaf parts stand in the output
/// in one piece, at the place of the nested item: behind all that was handed
/// out before it and in front of all that is handed out after it.
pub proof fn law_nested_parts_are_spliced<F>(
    s: DecoderView,
    before: Seq<EventView<F>>,
    parts: Seq<PartScript<F>>,
    after: Seq<EventView<F>>,
)
    requires
        run(s, before).0.state is Idle,
        run(s, before).0.depth < depth_limit(),
        forall|i: int| 0 <= i < parts.len() ==> (#[trigger] parts[i]).valid(),
    ensures
        run(s, before + nested_events(parts) + after).0 == run(run(s, before).0, after).0,
        emitted(run(s, before + nested_events(parts) + after).1) == emitted(run(s, before).1)
            + parts_fields(parts) + emitted(run(run(s, before).0, after).1),
{
    let mid = run(s, before).0;
    law_nested_parts(mid, parts);
    lemma_run_concat(s, before, nested_events(parts));
    lemma_run_concat(s, before + nested_events(parts), after);
    lemma_emitted_concat(run(s, before).1, run(mid, nested_events(parts)).1);
    lemma_emitted_concat(
        run(s, before).1 + run(mid, nested_events(parts)).1,
        run(mid, after).1,
    );
}

/// A named leaf part whose body fails after `k` chunks ends the output with
/// the error of the part source, and makes no field.
pub proof fn lemma_cut_part_run<F>(
    s: DecoderView,
    part: PartScript<F>,
    k: int,
    e: actix_web::error::MultipartError,
)
    requires
        s.state is Idle,
        0 <= k <= part.chunks.len(),
        part.fits_before(k),
    ensures
        run(s, part.events_before(k) + seq![EventView::SourceFailed(e)]).0 == s.with(
            StateView::Failed,
        ),
        emitted(run(s, part.events_before(k) + seq![EventView::SourceFailed(e)]).1) == Seq::<
            FieldView<F>,
        >::empty(),
        run(s, part.events_before(k) + seq![EventView::SourceFailed(e)]).1.len() > 0,
        run(s, part.events_before(k) + seq![EventView::SourceFailed(e)]).1.last()
            == ActionView::<F>::Fail(Error::Multipart(e)),
{
    let got = part.chunks.take(k);
    let fail = seq![EventView::<F>::SourceFailed(e)];
    let failed = ActionView::<F>::Fail(Error::Multipart(e));
    lemma_single_action(failed);
    match part.route() {
        RouteView::Data { name } => {
            let leaf = seq![EventView::<F>::Leaf(part.head)];
            let s1 = s.with(
                StateView::Buffering { head: part.head.accepted(), name, value: Seq::empty() },
            );
            lemma_run_one(s, EventView::<F>::Leaf(part.head));
            lemma_buffering_run::<F>(s1, got);
            let s2 = run(s1, chunk_events::<F>(got)).0;
            lemma_run_one(s2, EventView::<F>::SourceFailed(e));
            lemma_run_concat(s, leaf, chunk_events::<F>(got));
            lemma_run_concat(s, leaf + chunk_events::<F>(got), fail);
            let asked = seq![ActionView::<F>::NextChunk] + chunk_requests::<F>(got.len());
            assert(asked =~= chunk_requests::<F>(got.len() + 1));
            lemma_requests_are_silent::<F>(got.len() + 1);
            lemma_emitted_concat(asked, seq![failed]);
        },
        RouteView::File { name, filename } => {
            let open = seq![EventView::<F>::Leaf(part.head), EventView::Opened];
            let asked = seq![ActionView::<F>::Open, ActionView::NextChunk];
            let draining = s.with(
                StateView::Spooling {
                    head: part.head.accepted(),
                    name,
                    filename,
                    phase: crate::decoder::SpoolPhase::Draining,
                },
            );
            lemma_run_two(s, EventView::<F>::Leaf(part.head), EventView::Opened);
            lemma_run_one(s, EventView::<F>::Leaf(part.head));
            lemma_run_one(run(s, seq![EventView::<F>::Leaf(part.head)]).0, EventView::<F>::Opened);
            assert(seq![ActionView::<F>::Open] + seq![ActionView::<F>::NextChunk] =~= asked);
            lemma_spooling_run::<F>(draining, got);
            lemma_run_one(draining, EventView::<F>::SourceFailed(e));
            lemma_run_concat(s, open, spool_events::<F>(got));
            lemma_run_concat(s, open + spool_events::<F>(got), fail);
            lemma_two_actions(ActionView::<F>::Open, ActionView::NextChunk);
            lemma_single_action(ActionView::<F>::Open);
            lemma_single_action(ActionView::<F>::NextChunk);
            lemma_spool_actions::<F>(got);
            lemma_emitted_concat(asked, spool_actions::<F>(got));
            lemma_emitted_concat(asked + spool_actions::<F>(got), seq![failed]);
        },
        _ => {},
    }
}

/// A failure of the part source at any place in the body of any named leaf
/// part ends the output with that error, whatever events follow. The fields
/// handed out before the part stay as they were, and none is added.
pub proof fn law_chunk_failure_aborts<F>(
    s: DecoderView,
    before: Seq<EventView<F>>,
    part: PartScript<F>,
    k: int,
    e: actix_web::error::MultipartError,
    later: Seq<EventView<F>>,
)
    requires
        run(s, before).0.state is Idle,
        0 <= k <= part.chunks.len(),
        part.fits_before(k),
    ensures
        run(
            s,
            before + part.events_before(k) + seq![EventView::SourceFailed(e)] + later,
        ).0 == run(s, before).0.with(StateView::Failed),
        emitted(
            run(s, before + part.events_before(k) + seq![EventView::SourceFailed(e)] + later).1,
        ) == emitted(run(s, before).1),
        run(
            s,
            before + part.events_before(k) + seq![EventView::SourceFailed(e)] + later,
        ).1.len() > 0,
        run(
            s,
            before + part.events_before(k) + seq![EventView::SourceFailed(e)] + later,
        ).1.last() == ActionView::<F>::Fail(Error::Multipart(e)),
{
    let mid = run(s, before).0;
    let cut = part.events_before(k) + seq![EventView::<F>::SourceFailed(e)];
    lemma_cut_part_run(mid, part, k, e);
    lemma_run_concat(s, before, cut);
    assert(before + cut =~= before + part.events_before(k) + seq![
        EventView::<F>::SourceFailed(e),
    ]);
    lemma_run_concat(s, before + cut, later);
    law_terminal_is_final(mid.with(StateView::Failed), later);
    lemma_emitted_concat(run(s, before).1, run(mid, cut).1);
}

/// Every step keeps the stored names in line with the stored disposition,
/// and a field that is handed out has the body that its disposition asks
/// for: data where it names no file, a file where it does.
pub proof fn law_fields_are_well_formed<F>(s: DecoderView, event: EventView<F>)
    requires
        s.inv(),
        s.step(event) is Some,
    ensures
        s.step(event).unwrap().0.inv(),
        match s.step(event).unwrap().1 {
            ActionView::Emit(field) => field.well_formed(),
            _ => true,
        },
{
}

/// Over any run of events from a decoder in line, the decoder stays in line
/// and every field handed out is well formed.
pub proof fn law_run_keeps_well_formed<F>(s: DecoderView, events: Seq<EventView<F>>)
    requires
        s.inv(),
    ensures
        run(s, events).0.inv(),
        forall|i: int|
            0 <= i < emitted(run(s, events).1).len() ==> (#[trigger] emitted(
                run(s, events).1,
            )[i]).well_formed(),
    decreases events.len(),
{
    if events.len() > 0 {
        law_run_keeps_well_formed(s, events.drop_last());
        let mid = run(s, events.drop_last()).0;
        let acts = run(s, events.drop_last()).1;
        match mid.step(events.last()) {
            Some((next, action)) => {
                law_fields_are_well_formed(mid, events.last());
                assert(acts.push(action).drop_last() =~= acts);
                let all = emitted(acts.push(action));
                assert forall|i: int| 0 <= i < all.len() implies (#[trigger] all[i]).well_formed() by {
                    if i < emitted(acts).len() {
                        assert(all[i] == emitted(acts)[i]);
                    }
                }
            },
            None => {},
        }
    }
}

/// An item as the part source delivers it when nothing fails: a leaf part,
/// or a nested sequence of items.
pub enum ItemScript<F> {
    Leaf(PartScript<F>),
    Nested(Seq<ItemScript<F>>),
}

/// The events of a sequence of items, nested sequences in their place.
pub open spec fn items_events<F>(items: Seq<ItemScript<F>>) -> Seq<EventView<F>>
    decreases items,
{
    if items.len() == 0 {
        Seq::empty()
    } else {
        items_events(items.drop_last()) + match items.last() {
            ItemScript::Leaf(part) => part.events(),
            ItemScript::Nested(inner) => seq![EventView::Nested] + items_events(inner) + seq![
                EventView::End,
            ],
        }
    }
}

/// The fields that a sequence of items makes: one for each leaf part that
/// has a name, nested sequences unfolded in their place.
pub open spec fn items_fields<F>(items: Seq<ItemScript<F>>) -> Seq<FieldView<F>>
    decreases items,
{
    if items.len() == 0 {
        Seq::empty()
    } else {
        items_fields(items.drop_last()) + match items.last() {
            ItemScript::Leaf(part) => if part.route() is Skip {
                Seq::empty()
            } else {
                seq![part.field()]
            },
            ItemScript::Nested(inner) => items_fields(inner),
        }
    }
}

/// Every leaf part is form data, gathered bodies fit into one buffer, and
/// the nesting stays within what the decoder can count, when the sequence
/// stands under `depth` open nested sequences.
pub open spec fn items_fit<F>(items: Seq<ItemScript<F>>, depth: nat) -> bool
    decreases items,
{
    if items.len() == 0 {
        true
    } else {
        items_fit(items.drop_last(), depth) && match items.last() {
            ItemScript::Leaf(part) => part.valid() || part.route() is Skip,
            ItemScript::Nested(inner) => depth < depth_limit() && items_fit(inner, depth + 1),
        }
    }
}

/// The output keeps the order of the input: a sequence of items in which
/// nothing fails makes the fields of its leaf parts in the order of the
/// parts, each nested sequence unfolded whole in its place, and leaves the
/// decoder between parts at the depth where it began.
pub proof fn law_output_keeps_order<F>(s: DecoderView, items: Seq<ItemScript<F>>)
    requires
        s.state is Idle,
        items_fit(items, s.depth),
    ensures
        run(s, items_events(items)).0 == s,
        emitted(run(s, items_events(items)).1) == items_fields(items),
    decreases items,
{
    if items.len() > 0 {
        let front = items.drop_last();
        law_output_keeps_order(s, front);
        match items.last() {
            ItemScript::Leaf(part) => {
                lemma_run_concat(s, items_events(front), part.events());
                lemma_emitted_concat(run(s, items_events(front)).1, run(s, part.events()).1);
                if part.route() is Skip {
                    lemma_run_one(s, EventView::<F>::Leaf(part.head));
                    lemma_single_action(ActionView::<F>::NextItem);
                } else {
                    lemma_part_run(s, part);
                }
            },
            ItemScript::Nested(inner) => {
                let deeper = DecoderView { depth: s.depth + 1, state: s.state };
                let enter = seq![EventView::<F>::Nested];
                let leave = seq![EventView::<F>::End];
                let nested = enter + items_events(inner) + leave;
                let asked = seq![ActionView::<F>::NextItem];
                law_output_keeps_order(deeper, inner);
                lemma_run_one(s, EventView::<F>::Nested);
                lemma_run_one(deeper, EventView::<F>::End);
                lemma_run_concat(s, enter, items_events(inner));
                lemma_run_concat(s, enter + items_events(inner), leave);
                let acts = run(deeper, items_events(inner)).1;
                lemma_emitted_concat(asked, acts);
                lemma_emitted_concat(asked + acts, asked);
                lemma_single_action(ActionView::<F>::NextItem);
                lemma_run_concat(s, items_events(front), nested);
                lemma_emitted_concat(run(s, items_events(front)).1, run(s, nested).1);
            },
        }
    }
}

} // verus!
