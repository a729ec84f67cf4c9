//! An open file: how it comes to be, how it is persisted, and how it ends.

use crate::engine::leads;
use crate::engine::lemma_completion_makes_one_call;
use crate::engine::Completion;
use crate::engine::EngineCall;
use crate::engine::EngineReply;
use crate::engine::Exchange;
use crate::engine::Step;
use crate::error::FileError;
use crate::tag::TagLibTag;
use crate::text::terminated;
use crate::text::text_len;
use crate::text::to_transport;
use vstd::prelude::*;
use vstd::utf8::encode_utf8;

verus! {

/// A file that the engine holds open, together with the view of its tag.
///
/// The one way to a value of this type is an `Opening` that ran to its end, and the one way
/// to release the file is to give the value up to `close`. The handle is never null.
#[derive(Debug, PartialEq, Eq)]
pub struct TagLibFile {
    file_handle: usize,
    tag: TagLibTag,
}

/// Where an opening stands.
#[derive(Clone, Copy, Debug, PartialEq, Eq)]
pub enum Stage {
    /// The engine was asked to open the path.
    AwaitingFile,
    /// The engine returned `file` and was asked whether it is usable.
    AwaitingValidity { file: usize },
    /// The engine found the file unusable and was asked to release it.
    AwaitingRelease,
    /// The engine found `file` usable and was asked for its tag.
    AwaitingTag { file: usize },
}

/// The exchange that opens a file. It begins in `TagLibFile::new` and nowhere else.
#[derive(Debug, PartialEq, Eq)]
pub struct Opening {
    stage: Stage,
}

/// The exchange that persists a file. It borrows the file until it is over.
#[derive(Debug, PartialEq, Eq)]
pub struct Saving<'a> {
    pub file: &'a TagLibFile,
}

/// What the engine's answer to a save means: zero stands for failure.
pub open spec fn saved(flag: i32) -> Result<(), FileError> {
    if flag == 0 {
        Err(FileError::SaveFailure)
    } else {
        Ok(())
    }
}

impl View for Opening {
    type V = Stage;

    closed spec fn view(&self) -> Stage {
        self.stage
    }
}

impl Exchange for Opening {
    type Output = Result<TagLibFile, FileError>;

    open spec fn follows(self, reply: EngineReply, step: Step<Self>) -> bool {
        match (self@, reply) {
            (Stage::AwaitingFile, EngineReply::File { file }) => if file == 0 {
                step == Step::<Opening>::Done(Err(FileError::OpenFailure))
            } else {
                &&& step matches Step::Call(next, call)
                &&& next@ == Stage::AwaitingValidity { file }
                &&& call == EngineCall::IsValid { file }
            },
            (Stage::AwaitingValidity { file }, EngineReply::Flag { flag }) => if flag == 0 {
                &&& step matches Step::Call(next, call)
                &&& next@ == Stage::AwaitingRelease
                &&& call == EngineCall::FreeFile { file }
            } else {
                &&& step matches Step::Call(next, call)
                &&& next@ == Stage::AwaitingTag { file }
                &&& call == EngineCall::GetTag { file }
            },
            (Stage::AwaitingRelease, EngineReply::Nothing) => step == Step::<Opening>::Done(
                Err(FileError::InvalidTagFile),
            ),
            (Stage::AwaitingTag { file }, EngineReply::Tag { tag }) => {
                &&& step matches Step::Done(Ok(kept))
                &&& kept.handle() == file
                &&& kept.bound_tag().address() == tag
            },
            _ => step == Step::<Opening>::Unanswered(self),
        }
    }

    open spec fn calls_ahead(self) -> nat {
        match self@ {
            Stage::AwaitingFile => 2,
            Stage::AwaitingValidity { .. } => 1,
            Stage::AwaitingRelease => 0,
            Stage::AwaitingTag { .. } => 0,
        }
    }

    fn advance(self, reply: EngineReply) -> (step: Step<Self>) {
        proof {
            use_type_invariant(&self);
        }
        match (self.stage, reply) {
            (Stage::AwaitingFile, EngineReply::File { file }) => {
                if file == 0 {
                    Step::Done(Err(FileError::OpenFailure))
                } else {
                    Step::Call(
                        Opening { stage: Stage::AwaitingValidity { file } },
                        EngineCall::IsValid { file },
                    )
                }
            },
            (Stage::AwaitingValidity { file }, EngineReply::Flag { flag }) => {
                if flag == 0 {
                    Step::Call(
                        Opening { stage: Stage::AwaitingRelease },
                        EngineCall::FreeFile { file },
                    )
                } else {
                    Step::Call(
                        Opening { stage: Stage::AwaitingTag { file } },
                        EngineCall::GetTag { file },
                    )
                }
            },
            (Stage::AwaitingRelease, EngineReply::Nothing) => Step::Done(
                Err(FileError::InvalidTagFile),
            ),
            (Stage::AwaitingTag { file }, EngineReply::Tag { tag }) => Step::Done(
                Ok(TagLibFile { file_handle: file, tag: TagLibTag::from_ptr(tag) }),
            ),
            (_, _) => Step::Unanswered(self),
        }
    }

    proof fn lemma_nearer(self, reply: EngineReply, step: Step<Self>) {
    }
}

impl Opening {
    #[verifier::type_invariant]
    spec fn live(&self) -> bool {
        match self.stage {
            Stage::AwaitingValidity { file } => file != 0,
            Stage::AwaitingTag { file } => file != 0,
            _ => true,
        }
    }

    /// Where the opening stands.
    pub fn stage(&self) -> (stage: Stage)
        ensures
            stage == self@,
    {
        self.stage
    }
}

impl<'a> Exchange for Saving<'a> {
    type Output = Result<(), FileError>;

    open spec fn follows(self, reply: EngineReply, step: Step<Self>) -> bool {
        step == match reply {
            EngineReply::Flag { flag } => Step::<Saving<'a>>::Done(saved(flag)),
            _ => Step::<Saving<'a>>::Unanswered(self),
        }
    }

    open spec fn calls_ahead(self) -> nat {
        0
    }

    fn advance(self, reply: EngineReply) -> (step: Step<Self>) {
        match reply {
            EngineReply::Flag { flag } => {
                if flag == 0 {
                    Step::Done(Err(FileError::SaveFailure))
                } else {
                    Step::Done(Ok(()))
                }
            },
            _ => Step::Unanswered(self),
        }
    }

    proof fn lemma_nearer(self, reply: EngineReply, step: Step<Self>) {
    }
}

impl TagLibFile {
    #[verifier::type_invariant]
    spec fn live(&self) -> bool {
        self.file_handle != 0
    }

    /// The address under which the engine knows the file.
    pub closed spec fn handle(&self) -> usize {
        self.file_handle
    }

    /// The view of the file's tag.
    pub closed spec fn bound_tag(&self) -> TagLibTag {
        self.tag
    }

    /// `step` is where opening `filename` begins: with the engine's open of its transport
    /// form, or at its end with no call, where the path is no text or holds the NUL character.
    pub open spec fn opens(filename: Option<&str>, step: Step<Opening>) -> bool {
        match filename {
            None => step == Step::<Opening>::Done(Err(FileError::PathAsString)),
            Some(name) => if !name@.contains('\0') {
                &&& step matches Step::Call(state, EngineCall::Open { path })
                &&& state@ == Stage::AwaitingFile
                &&& path@ == terminated(encode_utf8(name@))
            } else {
                &&& step matches Step::Done(Err(FileError::NullPathString(e)))
                &&& e.refused() == encode_utf8(name@)
                &&& e.position() == text_len(encode_utf8(name@))
            },
        }
    }

    /// Where persisting the file begins: with the engine's save of it.
    pub open spec fn saves(&self) -> Step<Saving<'_>> {
        Step::Call(Saving { file: self }, EngineCall::Save { file: self.handle() })
    }

    /// Where the end of the file begins: with the engine's release of it.
    pub open spec fn closes(self) -> Step<Completion> {
        Step::Call(Completion, EngineCall::FreeFile { file: self.handle() })
    }

    /// Begins opening the file at `filename`, the path as text where it has such a form.
    ///
    /// The engine must have been told before, once and for the whole process, to leave the
    /// strings it returns to the caller: see `string_management`.
    pub fn new(filename: Option<&str>) -> (step: Step<Opening>)
        ensures
            Self::opens(filename, step),
    {
        match filename {
            None => Step::Done(Err(FileError::PathAsString)),
            Some(name) => match to_transport(name) {
                Ok(path) => Step::Call(
                    Opening { stage: Stage::AwaitingFile },
                    EngineCall::Open { path },
                ),
                Err(e) => Step::Done(Err(FileError::NullPathString(e))),
            },
        }
    }

    /// Begins persisting the file. The file stays open whatever the engine answers, and
    /// nothing of it changes here.
    pub fn save(&self) -> (step: Step<Saving<'_>>)
        ensures
            step == self.saves(),
            self.handle() != 0,
    {
        proof {
            use_type_invariant(self);
        }
        Step::Call(Saving { file: self }, EngineCall::Save { file: self.file_handle })
    }

    /// The view of the file's tag, for as long as the file is borrowed.
    pub fn tag(&self) -> (tag: &TagLibTag)
        ensures
            *tag == self.bound_tag(),
            self.handle() != 0,
    {
        proof {
            use_type_invariant(self);
        }
        &self.tag
    }

    /// Begins the release of the file, which ends it.
    pub fn close(self) -> (step: Step<Completion>)
        ensures
            step == self.closes(),
            self.handle() != 0,
    {
        proof {
            use_type_invariant(&self);
        }
        Step::Call(Completion, EngineCall::FreeFile { file: self.file_handle })
    }
}

/// How an opening ends, whatever the engine answers.
///
/// A file that the engine returned is either kept, in the result, and then was found usable
/// and was never released; or it was found unusable and then was released, once, as the last
/// call before the failure is reported. Where the engine returned none, or the path never
/// reached it, nothing is released, for there is nothing to release.
pub proof fn lemma_opening_keeps_or_releases(
    filename: Option<&str>,
    begun: Step<Opening>,
    replies: Seq<EngineReply>,
    calls: Seq<EngineCall>,
    result: Result<TagLibFile, FileError>,
)
    requires
        TagLibFile::opens(filename, begun),
        leads(begun, replies, calls, Step::Done(result)),
    ensures
        result is Ok ==> ({
            &&& result->Ok_0.handle() != 0
            &&& replies.len() == 3
            &&& replies[0] == (EngineReply::File { file: result->Ok_0.handle() })
            &&& replies[1] is Flag && replies[1]->flag != 0
            &&& replies[2] == (EngineReply::Tag { tag: result->Ok_0.bound_tag().address() })
            &&& calls.len() == 3
            &&& calls[1] == (EngineCall::IsValid { file: result->Ok_0.handle() })
            &&& calls[2] == (EngineCall::GetTag { file: result->Ok_0.handle() })
        }),
        result is Err ==> (match result->Err_0 {
            FileError::OpenFailure => {
                &&& replies.len() == 1
                &&& replies[0] == (EngineReply::File { file: 0 })
                &&& calls.len() == 1
            },
            FileError::InvalidTagFile => {
                &&& replies.len() == 3
                &&& replies[0] is File && replies[0]->file != 0
                &&& replies[1] == (EngineReply::Flag { flag: 0 })
                &&& replies[2] is Nothing
                &&& calls.len() == 3
                &&& calls[1] == (EngineCall::IsValid { file: replies[0]->file })
                &&& calls[2] == (EngineCall::FreeFile { file: replies[0]->file })
            },
            FileError::PathAsString => filename is None && calls.len() == 0,
            FileError::NullPathString(_) => {
                &&& filename is Some
                &&& filename->0@.contains('\0')
                &&& calls.len() == 0
            },
            FileError::SaveFailure => false,
        }),
        calls.len() > 0 ==> filename is Some && calls[0] is Open && calls[0]->path@ == terminated(
            encode_utf8(filename->0@),
        ),
{
    reveal_with_fuel(leads, 5);
}

/// A save that comes to its end has made one call, the engine's save of this file, and
/// reports what the engine answered: failure for zero, success for anything else.
pub proof fn lemma_save_makes_one_call(
    file: &TagLibFile,
    replies: Seq<EngineReply>,
    calls: Seq<EngineCall>,
    result: Result<(), FileError>,
)
    requires
        leads(file.saves(), replies, calls, Step::Done(result)),
    ensures
        replies.len() == 1,
        replies[0] is Flag,
        result == saved(replies[0]->flag),
        result is Ok <==> replies[0]->flag != 0,
        result is Err ==> result == Err::<(), FileError>(FileError::SaveFailure),
        calls.len() == 1,
        calls[0] == (EngineCall::Save { file: file.handle() }),
{
    reveal_with_fuel(leads, 3);
}

/// The end of a file releases it once: a close that comes to its end has made one call, the
/// engine's release of this file.
pub proof fn lemma_close_releases_once(
    file: TagLibFile,
    replies: Seq<EngineReply>,
    calls: Seq<EngineCall>,
)
    requires
        leads(file.closes(), replies, calls, Step::Done(())),
    ensures
        replies.len() == 1,
        replies[0] is Nothing,
        calls.len() == 1,
        calls[0] == (EngineCall::FreeFile { file: file.handle() }),
{
    lemma_completion_makes_one_call(
        EngineCall::FreeFile { file: file.handle() },
        replies,
        calls,
    );
}

} // verus!
