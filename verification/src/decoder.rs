use vstd::prelude::*;
use vstd::pervasive::unreached;
use actix_web::error::MultipartError;
use actix_web::http::HeaderMap;
use bytes::Bytes;
use mime::Mime;
use crate::buffer::{append, bytes_of, capacity_limit, empty, length};
use crate::disposition::{classify, route_of, Disposition, DispositionView, Route, RouteView};
use crate::error::Error;
use crate::field::{Field, FieldView, FormData, FormDataView, PartHead, PartHeadView};

verus! {

/// What the driver reports back to the decoder. Each event answers the
/// action that the decoder gave last.
#[derive(Debug)]
pub enum Event<F> {
    /// The part source yielded a leaf part with this head.
    Leaf(PartHead),
    /// The part source yielded a nested sequence, which is now the innermost
    /// open one.
    Nested,
    /// The innermost open sequence is exhausted.
    End,
    /// The current part yielded a chunk of its body.
    Chunk(Bytes),
    /// The body of the current part is exhausted.
    PartEnd,
    /// The part source failed, on an item or on a chunk.
    SourceFailed(MultipartError),
    /// Temporary storage is open.
    Opened,
    /// The chunk handed out last is written in full.
    Written,
    /// Temporary storage is back at its start; this is the handle to read it.
    Rewound(F),
    /// Temporary storage could not be opened, written or rewound.
    StorageFailed(std::io::Error),
}

/// An event as a mathematical value.
pub enum EventView<F> {
    Leaf(PartHeadView),
    Nested,
    End,
    Chunk(Seq<u8>),
    PartEnd,
    SourceFailed(MultipartError),
    Opened,
    Written,
    Rewound(F),
    StorageFailed(std::io::Error),
}

impl<F> View for Event<F> {
    type V = EventView<F>;

    open spec fn view(&self) -> EventView<F> {
        match *self {
            Event::Leaf(head) => EventView::Leaf(head@),
            Event::Nested => EventView::Nested,
            Event::End => EventView::End,
            Event::Chunk(chunk) => EventView::Chunk(bytes_of(chunk)),
            Event::PartEnd => EventView::PartEnd,
            Event::SourceFailed(e) => EventView::SourceFailed(e),
            Event::Opened => EventView::Opened,
            Event::Written => EventView::Written,
            Event::Rewound(file) => EventView::Rewound(file),
            Event::StorageFailed(e) => EventView::StorageFailed(e),
        }
    }
}

/// What the decoder asks of the driver next.
#[derive(Debug)]
pub enum Action<F> {
    /// Pull the next item of the innermost open sequence.
    NextItem,
    /// Pull the next chunk of the current part.
    NextChunk,
    /// Open temporary storage, with a handle to write and one to read.
    Open,
    /// Write this chunk in full, behind what was written before.
    Write(Bytes),
    /// Move the reading handle to the start of the storage.
    Rewind,
    /// Hand this field to the consumer, then pull the next item.
    Emit(Field<F>),
    /// Hand this error to the consumer and pull nothing more.
    Fail(Error),
    /// The outermost sequence is exhausted: end the output.
    Finish,
}

/// An action as a mathematical value.
pub enum ActionView<F> {
    NextItem,
    NextChunk,
    Open,
    Write(Seq<u8>),
    Rewind,
    Emit(FieldView<F>),
    Fail(Error),
    Finish,
}

impl<F> View for Action<F> {
    type V = ActionView<F>;

    open spec fn view(&self) -> ActionView<F> {
        match *self {
            Action::NextItem => ActionView::NextItem,
            Action::NextChunk => ActionView::NextChunk,
            Action::Open => ActionView::Open,
            Action::Write(chunk) => ActionView::Write(bytes_of(chunk)),
            Action::Rewind => ActionView::Rewind,
            Action::Emit(field) => ActionView::Emit(field@),
            Action::Fail(e) => ActionView::Fail(e),
            Action::Finish => ActionView::Finish,
        }
    }
}

/// How far the spooling of a file part has come.
#[derive(Debug, Clone, Copy)]
pub enum SpoolPhase {
    /// Storage was asked for.
    Opening,
    /// Storage is open and the next chunk was asked for.
    Draining,
    /// A chunk was handed out to be written.
    Writing,
    /// The body is written and the rewind was asked for.
    Rewinding,
}

/// The head of a part that was accepted as a field.
#[derive(Debug)]
struct Accepted {
    headers: HeaderMap,
    content_type: Mime,
    content_disposition: Disposition,
}

#[derive(Debug)]
enum State {
    Idle,
    Buffering { head: Accepted, name: String, value: Bytes },
    Spooling { head: Accepted, name: String, filename: String, phase: SpoolPhase },
    Failed,
    Finished,
}

/// The head of an accepted part as a mathematical value.
pub struct AcceptedView {
    pub headers: HeaderMap,
    pub content_type: Mime,
    pub content_disposition: DispositionView,
}

/// What the decoder is in the middle of.
pub enum StateView {
    /// Between parts: the next item was asked for.
    Idle,
    /// Gathering the body of a data part.
    Buffering { head: AcceptedView, name: Seq<char>, value: Seq<u8> },
    /// Spooling the body of a file part.
    Spooling { head: AcceptedView, name: Seq<char>, filename: Seq<char>, phase: SpoolPhase },
    /// An error was handed out.
    Failed,
    /// The outermost sequence ended.
    Finished,
}

/// The decoder as a mathematical value.
pub struct DecoderView {
    /// Number of nested sequences that are open.
    pub depth: nat,
    pub state: StateView,
}

/// Decides, event by event, what is done with the parts of a multipart body:
/// which are gathered in memory, which are spooled, which are passed over,
/// and when the output ends.
#[derive(Debug)]
pub struct Decoder {
    depth: usize,
    state: State,
}

/// Largest number of nested sequences that can be open at once.
pub open spec fn depth_limit() -> nat {
    usize::MAX as nat
}

impl AcceptedView {
    /// The field that this head makes with the given body.
    pub open spec fn field<F>(self, form_data: FormDataView<F>) -> FieldView<F> {
        FieldView {
            headers: self.headers,
            content_type: self.content_type,
            content_disposition: self.content_disposition,
            form_data,
        }
    }
}

impl PartHeadView {
    /// This head, once its disposition is known to be there.
    pub open spec fn accepted(self) -> AcceptedView {
        AcceptedView {
            headers: self.headers,
            content_type: self.content_type,
            content_disposition: self.content_disposition.unwrap(),
        }
    }
}

impl DecoderView {
    /// The decoder before the first item.
    pub open spec fn initial() -> DecoderView {
        DecoderView { depth: 0, state: StateView::Idle }
    }

    /// This decoder in another state, at the same depth.
    pub open spec fn with(self, state: StateView) -> DecoderView {
        DecoderView { depth: self.depth, state }
    }

    /// Whether the output has ended, cleanly or with an error.
    pub open spec fn terminal(self) -> bool {
        self.state is Failed || self.state is Finished
    }

    /// The stored names are those of the stored disposition.
    pub open spec fn inv(self) -> bool {
        match self.state {
            StateView::Buffering { head, name, value } => route_of(Some(head.content_disposition))
                == (RouteView::Data { name }),
            StateView::Spooling { head, name, filename, phase } => route_of(
                Some(head.content_disposition),
            ) == (RouteView::File { name, filename }),
            _ => true,
        }
    }

    /// What a leaf part's head leads to, between parts.
    pub open spec fn on_leaf<F>(self, head: PartHeadView) -> (DecoderView, ActionView<F>) {
        match route_of(head.content_disposition) {
            RouteView::Reject => (
                self.with(StateView::Failed),
                ActionView::Fail(Error::NotFormData),
            ),
            RouteView::Skip => (self, ActionView::NextItem),
            RouteView::Data { name } => (
                self.with(
                    StateView::Buffering { head: head.accepted(), name, value: Seq::empty() },
                ),
                ActionView::NextChunk,
            ),
            RouteView::File { name, filename } => (
                self.with(
                    StateView::Spooling {
                        head: head.accepted(),
                        name,
                        filename,
                        phase: SpoolPhase::Opening,
                    },
                ),
                ActionView::Open,
            ),
        }
    }

    /// The transition function: the next state and the action for an event
    /// that answers what the decoder asked last, `None` for any other event.
    pub open spec fn step<F>(self, event: EventView<F>) -> Option<(DecoderView, ActionView<F>)> {
        match (self.state, event) {
            (StateView::Idle, EventView::Leaf(head)) => Some(self.on_leaf(head)),
            (StateView::Idle, EventView::Nested) => if self.depth < depth_limit() {
                Some((DecoderView { depth: self.depth + 1, state: self.state }, ActionView::NextItem))
            } else {
                None
            },
            (StateView::Idle, EventView::End) => if self.depth == 0 {
                Some((self.with(StateView::Finished), ActionView::Finish))
            } else {
                Some(
                    (
                        DecoderView { depth: (self.depth - 1) as nat, state: self.state },
                        ActionView::NextItem,
                    ),
                )
            },
            (StateView::Idle, EventView::SourceFailed(e)) => Some(
                (self.with(StateView::Failed), ActionView::Fail(Error::Multipart(e))),
            ),
            (StateView::Buffering { head, name, value }, EventView::Chunk(chunk)) => if value.len()
                + chunk.len() <= capacity_limit() {
                Some(
                    (
                        self.with(StateView::Buffering { head, name, value: value + chunk }),
                        ActionView::NextChunk,
                    ),
                )
            } else {
                None
            },
            (StateView::Buffering { head, name, value }, EventView::PartEnd) => Some(
                (
                    self.with(StateView::Idle),
                    ActionView::Emit(head.field(FormDataView::Data { name, value })),
                ),
            ),
            (StateView::Buffering { head, name, value }, EventView::SourceFailed(e)) => Some(
                (self.with(StateView::Failed), ActionView::Fail(Error::Multipart(e))),
            ),
            (StateView::Spooling { head, name, filename, phase }, event) => match (phase, event) {
                (SpoolPhase::Opening, EventView::Opened) => Some(
                    (
                        self.with(
                            StateView::Spooling {
                                head,
                                name,
                                filename,
                                phase: SpoolPhase::Draining,
                            },
                        ),
                        ActionView::NextChunk,
                    ),
                ),
                (SpoolPhase::Draining, EventView::Chunk(chunk)) => Some(
                    (
                        self.with(
                            StateView::Spooling {
                                head,
                                name,
                                filename,
                                phase: SpoolPhase::Writing,
                            },
                        ),
                        ActionView::Write(chunk),
                    ),
                ),
                (SpoolPhase::Draining, EventView::PartEnd) => Some(
                    (
                        self.with(
                            StateView::Spooling {
                                head,
                                name,
                                filename,
                                phase: SpoolPhase::Rewinding,
                            },
                        ),
                        ActionView::Rewind,
                    ),
                ),
                (SpoolPhase::Draining, EventView::SourceFailed(e)) => Some(
                    (self.with(StateView::Failed), ActionView::Fail(Error::Multipart(e))),
                ),
                (SpoolPhase::Writing, EventView::Written) => Some(
                    (
                        self.with(
                            StateView::Spooling {
                                head,
                                name,
                                filename,
                                phase: SpoolPhase::Draining,
                            },
                        ),
                        ActionView::NextChunk,
                    ),
                ),
                (SpoolPhase::Rewinding, EventView::Rewound(file)) => Some(
                    (
                        self.with(StateView::Idle),
                        ActionView::Emit(head.field(FormDataView::File { name, filename, file })),
                    ),
                ),
                (SpoolPhase::Opening, EventView::StorageFailed(e))
                | (SpoolPhase::Writing, EventView::StorageFailed(e))
                | (SpoolPhase::Rewinding, EventView::StorageFailed(e)) => Some(
                    (self.with(StateView::Failed), ActionView::Fail(Error::Io(e))),
                ),
                _ => None,
            },
            _ => None,
        }
    }
}


impl Accepted {
    spec fn view(&self) -> AcceptedView {
        AcceptedView {
            headers: self.headers,
            content_type: self.content_type,
            content_disposition: self.content_disposition@,
        }
    }
}

impl State {
    spec fn view(&self) -> StateView {
        match *self {
            State::Idle => StateView::Idle,
            State::Buffering { head, name, value } => StateView::Buffering {
                head: head.view(),
                name: name@,
                value: bytes_of(value),
            },
            State::Spooling { head, name, filename, phase } => StateView::Spooling {
                head: head.view(),
                name: name@,
                filename: filename@,
                phase,
            },
            State::Failed => StateView::Failed,
            State::Finished => StateView::Finished,
        }
    }
}

impl View for Decoder {
    type V = DecoderView;

    closed spec fn view(&self) -> DecoderView {
        DecoderView { depth: self.depth as nat, state: self.state.view() }
    }
}

impl Decoder {
    /// A decoder that awaits the first item of the outermost sequence.
    pub fn new() -> (r: Decoder)
        ensures
            r@ == DecoderView::initial(),
    {
        Decoder { depth: 0, state: State::Idle }
    }

    /// Whether the output has ended, cleanly or with an error.
    pub fn is_terminal(&self) -> (r: bool)
        ensures
            r == self@.terminal(),
    {
        match &self.state {
            State::Failed => true,
            State::Finished => true,
            _ => false,
        }
    }

    /// Whether `event` answers what the decoder asked last, and can be taken.
    pub fn accepts<F>(&self, event: &Event<F>) -> (r: bool)
        ensures
            r == self@.step(event@).is_some(),
    {
        match &self.state {
            State::Idle => match event {
                Event::Leaf(_) => true,
                Event::Nested => self.depth < usize::MAX,
                Event::End => true,
                Event::SourceFailed(_) => true,
                _ => false,
            },
            State::Buffering { head, name, value } => match event {
                Event::Chunk(chunk) => {
                    let limit: usize = (isize::MAX / 4) as usize;
                    let held: usize = length(value);
                    let more: usize = length(chunk);
                    more <= limit && held <= limit - more
                },
                Event::PartEnd => true,
                Event::SourceFailed(_) => true,
                _ => false,
            },
            State::Spooling { head, name, filename, phase } => match phase {
                SpoolPhase::Opening => match event {
                    Event::Opened => true,
                    Event::StorageFailed(_) => true,
                    _ => false,
                },
                SpoolPhase::Draining => match event {
                    Event::Chunk(_) => true,
                    Event::PartEnd => true,
                    Event::SourceFailed(_) => true,
                    _ => false,
                },
                SpoolPhase::Writing => match event {
                    Event::Written => true,
                    Event::StorageFailed(_) => true,
                    _ => false,
                },
                SpoolPhase::Rewinding => match event {
                    Event::Rewound(_) => true,
                    Event::StorageFailed(_) => true,
                    _ => false,
                },
            },
            State::Failed => false,
            State::Finished => false,
        }
    }
}


impl Decoder {
    /// Takes a leaf part between parts: routes it by its disposition.
    fn begin_part<F>(&mut self, head: PartHead) -> (action: Action<F>)
        requires
            old(self)@.state is Idle,
        ensures
            (final(self)@, action@) == old(self)@.on_leaf::<F>(head@),
    {
        let route = classify(&head.content_disposition);
        match route {
            Route::Reject => {
                self.state = State::Failed;
                Action::Fail(Error::NotFormData)
            },
            Route::Skip => Action::NextItem,
            Route::Data { name } => {
                let PartHead { headers, content_type, content_disposition } = head;
                let head = Accepted {
                    headers,
                    content_type,
                    content_disposition: content_disposition.unwrap(),
                };
                self.state = State::Buffering { head, name, value: empty() };
                Action::NextChunk
            },
            Route::File { name, filename } => {
                let PartHead { headers, content_type, content_disposition } = head;
                let head = Accepted {
                    headers,
                    content_type,
                    content_disposition: content_disposition.unwrap(),
                };
                self.state = State::Spooling { head, name, filename, phase: SpoolPhase::Opening };
                Action::Open
            },
        }
    }

    /// Takes an event that answers what the decoder asked last, and says
    /// what is to be done next.
    pub fn advance<F>(&mut self, event: Event<F>) -> (action: Action<F>)
        requires
            old(self)@.step(event@).is_some(),
        ensures
            Some((final(self)@, action@)) == old(self)@.step(event@),
    {
        let mut state = State::Failed;
        core::mem::swap(&mut self.state, &mut state);
        match state {
            State::Idle => {
                self.state = State::Idle;
                match event {
                    Event::Leaf(head) => self.begin_part(head),
                    Event::Nested => {
                        self.depth = self.depth + 1;
                        Action::NextItem
                    },
                    Event::End => {
                        if self.depth == 0 {
                            self.state = State::Finished;
                            Action::Finish
                        } else {
                            self.depth = self.depth - 1;
                            Action::NextItem
                        }
                    },
                    Event::SourceFailed(e) => {
                        self.state = State::Failed;
                        Action::Fail(Error::Multipart(e))
                    },
                    _ => unreached(),
                }
            },
            State::Buffering { head, name, value } => match event {
                Event::Chunk(chunk) => {
                    let mut value = value;
                    append(&mut value, chunk);
                    self.state = State::Buffering { head, name, value };
                    Action::NextChunk
                },
                Event::PartEnd => {
                    self.state = State::Idle;
                    Action::Emit(
                        Field {
                            headers: head.headers,
                            content_type: head.content_type,
                            content_disposition: head.content_disposition,
                            form_data: FormData::Data { name, value },
                        },
                    )
                },
                Event::SourceFailed(e) => Action::Fail(Error::Multipart(e)),
                _ => unreached(),
            },
            State::Spooling { head, name, filename, phase } => match (phase, event) {
                (SpoolPhase::Opening, Event::Opened) => {
                    self.state =
                    State::Spooling { head, name, filename, phase: SpoolPhase::Draining };
                    Action::NextChunk
                },
                (SpoolPhase::Draining, Event::Chunk(chunk)) => {
                    self.state =
                    State::Spooling { head, name, filename, phase: SpoolPhase::Writing };
                    Action::Write(chunk)
                },
                (SpoolPhase::Draining, Event::PartEnd) => {
                    self.state =
                    State::Spooling { head, name, filename, phase: SpoolPhase::Rewinding };
                    Action::Rewind
                },
                (SpoolPhase::Draining, Event::SourceFailed(e)) => Action::Fail(
                    Error::Multipart(e),
                ),
                (SpoolPhase::Writing, Event::Written) => {
                    self.state =
                    State::Spooling { head, name, filename, phase: SpoolPhase::Draining };
                    Action::NextChunk
                },
                (SpoolPhase::Rewinding, Event::Rewound(file)) => {
                    self.state = State::Idle;
                    Action::Emit(
                        Field {
                            headers: head.headers,
                            content_type: head.content_type,
                            content_disposition: head.content_disposition,
                            form_data: FormData::File { name, filename, file },
                        },
                    )
                },
                (SpoolPhase::Opening, Event::StorageFailed(e))
                | (SpoolPhase::Writing, Event::StorageFailed(e))
                | (SpoolPhase::Rewinding, Event::StorageFailed(e)) => Action::Fail(Error::Io(e)),
                _ => unreached(),
            },
            State::Failed => unreached(),
            State::Finished => unreached(),
        }
    }

    /// Offers an event to the decoder. Where the event answers what the
    /// decoder asked last, it is taken and the next action comes back; any
    /// other event is handed back and the decoder stays as it was.
    pub fn step<F>(&mut self, event: Event<F>) -> (r: Result<Action<F>, Event<F>>)
        ensures
            match r {
                Ok(action) => Some((final(self)@, action@)) == old(self)@.step(event@),
                Err(back) => old(self)@.step(event@).is_none() && back == event && *final(self)
                    == *old(self),
            },
    {
        if self.accepts(&event) {
            Ok(self.advance(event))
        } else {
            Err(event)
        }
    }
}

} // verus!
