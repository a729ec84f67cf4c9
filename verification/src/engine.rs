//! The vocabulary spoken with the tag engine: the calls it is asked to make, the replies it
//! gives, and the shape of an exchange built from them.

use vstd::prelude::*;

verus! {

/// A text field of a tag.
#[derive(Clone, Copy, Debug, PartialEq, Eq, Structural)]
pub enum TextField {
    Title,
    Artist,
    Album,
    Comment,
    Genre,
}

/// A numeric field of a tag.
#[derive(Clone, Copy, Debug, PartialEq, Eq, Structural)]
pub enum NumberField {
    Year,
    Track,
    Bpm,
}

/// One call into the tag engine.
///
/// Resources are named by the addresses that the engine handed out for them. Texts travel in
/// transport form: bytes closed by a terminator.
#[derive(Debug, PartialEq, Eq)]
pub enum EngineCall {
    /// Switches the engine's own management of returned strings on or off, process-wide.
    StringManagement { enabled: bool },
    /// Opens the file at `path`.
    Open { path: Vec<u8> },
    /// Asks whether the opened file holds a usable tag structure.
    IsValid { file: usize },
    /// Asks for the tag of the file.
    GetTag { file: usize },
    /// Releases the file.
    FreeFile { file: usize },
    /// Persists the file.
    Save { file: usize },
    /// Reads a text field into a transient buffer.
    ReadField { tag: usize, field: TextField },
    /// Releases a transient buffer.
    FreeBuffer { buffer: usize },
    /// Writes a text field.
    WriteField { tag: usize, field: TextField, text: Vec<u8> },
    /// Reads a numeric field.
    ReadNumeric { tag: usize, number: NumberField },
    /// Writes a numeric field.
    WriteNumeric { tag: usize, number: NumberField, value: u32 },
}

/// What the engine gave back for one call.
#[derive(Debug, PartialEq, Eq)]
pub enum EngineReply {
    /// The call returns nothing.
    Nothing,
    /// The file resource, or zero where the engine returned none.
    File { file: usize },
    /// A truth value as the engine spells it: zero for false, anything else for true.
    Flag { flag: i32 },
    /// The tag resource.
    Tag { tag: usize },
    /// A transient buffer and the bytes found in it, terminator included or not.
    Text { buffer: usize, bytes: Vec<u8> },
    /// A number.
    Number { value: u32 },
}

/// Where an exchange stands after it was begun or was given a reply.
#[derive(Debug, PartialEq, Eq)]
pub enum Step<X: Exchange> {
    /// The engine is to make this call; its reply goes to the exchange.
    Call(X, EngineCall),
    /// The exchange is over, with this result.
    Done(X::Output),
    /// The reply did not answer the call that the exchange waits on: nothing has moved, and
    /// no call is to be made for it.
    Unanswered(X),
}

/// A conversation with the engine that one operation holds: a state that waits on the reply
/// to the call made last.
pub trait Exchange: Sized {
    /// What the operation yields in the end.
    type Output;

    /// `step` is where the exchange stands once `reply` has come in.
    spec fn follows(self, reply: EngineReply, step: Step<Self>) -> bool;

    /// How many calls the exchange may still ask for, at most, once the call that it waits
    /// on is answered.
    spec fn calls_ahead(self) -> nat;

    /// Takes the engine's reply to the call made last.
    fn advance(self, reply: EngineReply) -> (step: Step<Self>)
        ensures
            self.follows(reply, step),
    ;

    /// Every call that an exchange asks for brings it nearer to its end.
    proof fn lemma_nearer(self, reply: EngineReply, step: Step<Self>)
        requires
            self.follows(reply, step),
        ensures
            (match step {
                Step::Call(next, _) => next.calls_ahead() < self.calls_ahead(),
                _ => true,
            }),
    ;
}

/// The exchange that stands at `from` is brought to `to` by `replies`, taken one by one, and
/// `calls` are the calls that the engine made on the way, in order.
///
/// Each reply but the last finds the exchange waiting on a call: a run goes no further than
/// an exchange that is over or a reply that went unanswered.
pub open spec fn leads<X: Exchange>(
    from: Step<X>,
    replies: Seq<EngineReply>,
    calls: Seq<EngineCall>,
    to: Step<X>,
) -> bool
    decreases replies.len(),
{
    if replies.len() == 0 {
        calls.len() == 0 && to == from
    } else {
        &&& from is Call
        &&& calls.len() > 0
        &&& calls.first() == from->Call_1
        &&& exists|mid: Step<X>| #[trigger]
            from->Call_0.follows(replies.first(), mid) && leads(
                mid,
                replies.drop_first(),
                calls.drop_first(),
                to,
            )
    }
}

/// `engine` was what answered: it was given each of `calls` and gave the reply of its place.
pub open spec fn answered<E: Fn(EngineCall) -> EngineReply>(
    engine: E,
    calls: Seq<EngineCall>,
    replies: Seq<EngineReply>,
) -> bool {
    &&& calls.len() == replies.len()
    &&& forall|i: int|
        0 <= i < calls.len() ==> call_ensures(engine, (#[trigger] calls[i],), replies[i])
}

/// The exchange of an operation that yields nothing: it waits for its one call to return.
#[derive(Debug, PartialEq, Eq)]
pub struct Completion;

impl Exchange for Completion {
    type Output = ();

    open spec fn follows(self, reply: EngineReply, step: Step<Self>) -> bool {
        step == if reply is Nothing {
            Step::<Completion>::Done(())
        } else {
            Step::<Completion>::Unanswered(self)
        }
    }

    open spec fn calls_ahead(self) -> nat {
        0
    }

    fn advance(self, reply: EngineReply) -> (step: Step<Self>) {
        match reply {
            EngineReply::Nothing => Step::Done(()),
            _ => Step::Unanswered(self),
        }
    }

    proof fn lemma_nearer(self, reply: EngineReply, step: Step<Self>) {
    }
}

/// Begins the one-time setup that precedes every other call: the engine is told to leave
/// the strings it returns to the caller, who releases each of them.
pub fn string_management() -> (step: Step<Completion>)
    ensures
        step == Step::<Completion>::Call(
            Completion,
            EngineCall::StringManagement { enabled: false },
        ),
{
    Step::Call(Completion, EngineCall::StringManagement { enabled: false })
}

/// `end` is where a run of the exchange begun at `begun` leads in which `engine` was what
/// answered.
pub open spec fn runs_to<X: Exchange, E: Fn(EngineCall) -> EngineReply>(
    begun: Step<X>,
    engine: E,
    end: Step<X>,
) -> bool {
    exists|replies: Seq<EngineReply>, calls: Seq<EngineCall>| #[trigger]
        leads(begun, replies, calls, end) && answered(engine, calls, replies)
}

/// Runs an exchange against `engine`: every call that the exchange asks for is made, and
/// every reply is handed over as it came, until the exchange is over or a reply goes
/// unanswered.
pub fn run<X: Exchange, E: Fn(EngineCall) -> EngineReply>(begun: Step<X>, engine: E) -> (end: Step<
    X,
>)
    requires
        forall|call: EngineCall| call_requires(engine, (call,)),
    ensures
        !(end is Call),
        runs_to(begun, engine, end),
{
    let mut step = begun;
    let ghost mut replies = Seq::<EngineReply>::empty();
    let ghost mut calls = Seq::<EngineCall>::empty();
    loop
        invariant
            forall|call: EngineCall| call_requires(engine, (call,)),
            leads(begun, replies, calls, step),
            answered(engine, calls, replies),
        decreases
                (if step is Call {
                    step->Call_0.calls_ahead() + 1
                } else {
                    0
                }),
    {
        match step {
            Step::Call(state, call) => {
                let ghost asked = call;
                let reply = engine(call);
                let ghost given = reply;
                let next = state.advance(reply);
                proof {
                    state.lemma_nearer(given, next);
                    lemma_run_goes_on(begun, replies, calls, state, asked, given, next);
                    replies = replies.push(given);
                    calls = calls.push(asked);
                }
                step = next;
            },
            end => {
                return end;
            },
        }
    }
}

/// A run goes on by one reply: where it has led to an exchange that waits on a call, and the
/// reply to that call brings the exchange one step on, the run that takes that reply too
/// leads there.
pub proof fn lemma_run_goes_on<X: Exchange>(
    from: Step<X>,
    replies: Seq<EngineReply>,
    calls: Seq<EngineCall>,
    state: X,
    call: EngineCall,
    reply: EngineReply,
    next: Step<X>,
)
    requires
        leads(from, replies, calls, Step::Call(state, call)),
        state.follows(reply, next),
    ensures
        leads(from, replies.push(reply), calls.push(call), next),
    decreases replies.len(),
{
    let longer = replies.push(reply);
    let made = calls.push(call);
    if replies.len() == 0 {
        assert(longer.drop_first() =~= Seq::<EngineReply>::empty());
        assert(made.drop_first() =~= Seq::<EngineCall>::empty());
        assert(from->Call_0.follows(longer.first(), next) && leads(
            next,
            longer.drop_first(),
            made.drop_first(),
            next,
        ));
    } else {
        let mid = choose|mid: Step<X>| #[trigger]
            from->Call_0.follows(replies.first(), mid) && leads(
                mid,
                replies.drop_first(),
                calls.drop_first(),
                Step::Call(state, call),
            );
        lemma_run_goes_on(mid, replies.drop_first(), calls.drop_first(), state, call, reply, next);
        assert(longer.drop_first() =~= replies.drop_first().push(reply));
        assert(made.drop_first() =~= calls.drop_first().push(call));
        assert(from->Call_0.follows(longer.first(), mid) && leads(
            mid,
            longer.drop_first(),
            made.drop_first(),
            next,
        ));
    }
}

/// No run is longer than its exchange allows: an exchange that is over or unanswered asks
/// for nothing, and one that waits on a call asks for that call and for no more than
/// `calls_ahead` further ones. Each reply of a run answers one call of it.
pub proof fn lemma_run_is_bounded<X: Exchange>(
    from: Step<X>,
    replies: Seq<EngineReply>,
    calls: Seq<EngineCall>,
    to: Step<X>,
)
    requires
        leads(from, replies, calls, to),
    ensures
        calls.len() == replies.len(),
        !(from is Call) ==> calls.len() == 0,
        from is Call ==> calls.len() <= from->Call_0.calls_ahead() + 1,
    decreases replies.len(),
{
    if replies.len() > 0 {
        let mid = choose|mid: Step<X>| #[trigger]
            from->Call_0.follows(replies.first(), mid) && leads(
                mid,
                replies.drop_first(),
                calls.drop_first(),
                to,
            );
        from->Call_0.lemma_nearer(replies.first(), mid);
        lemma_run_is_bounded(mid, replies.drop_first(), calls.drop_first(), to);
    }
}

/// An operation that yields nothing and comes to its end has made its one call, once, and
/// the engine has returned from it.
pub proof fn lemma_completion_makes_one_call(
    call: EngineCall,
    replies: Seq<EngineReply>,
    calls: Seq<EngineCall>,
)
    requires
        leads(Step::<Completion>::Call(Completion, call), replies, calls, Step::Done(())),
    ensures
        replies.len() == 1,
        replies[0] is Nothing,
        calls.len() == 1,
        calls[0] == call,
{
    reveal_with_fuel(leads, 3);
}

} // verus!
