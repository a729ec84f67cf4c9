//! What the engine has handed out and not yet got back: the files it holds open and the
//! buffers it has filled. The laws here say that every operation leaves this ledger as it
//! should be: nothing is released twice, nothing is released that was never handed out, and
//! nothing is left behind.

use crate::engine::leads;
use crate::engine::EngineCall;
use crate::engine::EngineReply;
use crate::engine::Step;
use crate::engine::TextField;
use crate::error::FileError;
use crate::file::lemma_close_releases_once;
use crate::file::lemma_opening_keeps_or_releases;
use crate::file::lemma_save_makes_one_call;
use crate::file::Opening;
use crate::file::TagLibFile;
use crate::tag::lemma_read_releases_its_buffer_once;
use crate::tag::TagLibTag;
use core::str::Utf8Error;
use vstd::prelude::*;

verus! {

/// The resources that are live: handed out by the engine and not yet released.
pub struct Ledger {
    pub files: Set<usize>,
    pub buffers: Set<usize>,
}

impl Ledger {
    /// `call` touches nothing that is not live: the file that it asks about, persists or
    /// releases is held open, the buffer that it releases is filled.
    pub open spec fn admits(self, call: EngineCall) -> bool {
        match call {
            EngineCall::IsValid { file } => self.files.contains(file),
            EngineCall::GetTag { file } => self.files.contains(file),
            EngineCall::Save { file } => self.files.contains(file),
            EngineCall::FreeFile { file } => self.files.contains(file),
            EngineCall::FreeBuffer { buffer } => self.buffers.contains(buffer),
            _ => true,
        }
    }

    /// `reply` hands out nothing that is live already: an address names one resource for as
    /// long as that resource lives. Zero is no file.
    pub open spec fn fresh(self, reply: EngineReply) -> bool {
        match reply {
            EngineReply::File { file } => file == 0 || !self.files.contains(file),
            EngineReply::Text { buffer, .. } => !self.buffers.contains(buffer),
            _ => true,
        }
    }

    /// The ledger once the engine has answered `call` with `reply`.
    pub open spec fn settle(self, call: EngineCall, reply: EngineReply) -> Ledger {
        match (call, reply) {
            (EngineCall::Open { .. }, EngineReply::File { file }) => if file != 0 {
                Ledger { files: self.files.insert(file), buffers: self.buffers }
            } else {
                self
            },
            (EngineCall::FreeFile { file }, _) => Ledger {
                files: self.files.remove(file),
                buffers: self.buffers,
            },
            (EngineCall::ReadField { .. }, EngineReply::Text { buffer, .. }) => Ledger {
                files: self.files,
                buffers: self.buffers.insert(buffer),
            },
            (EngineCall::FreeBuffer { buffer }, _) => Ledger {
                files: self.files,
                buffers: self.buffers.remove(buffer),
            },
            _ => self,
        }
    }

    /// The ledger once the engine has answered each of `calls` with the reply of its place.
    pub open spec fn after(self, calls: Seq<EngineCall>, replies: Seq<EngineReply>) -> Ledger
        decreases calls.len(),
    {
        if calls.len() == 0 || replies.len() == 0 {
            self
        } else {
            self.settle(calls.first(), replies.first()).after(
                calls.drop_first(),
                replies.drop_first(),
            )
        }
    }

    /// Every one of `calls` was admitted when it was made.
    pub open spec fn orderly(self, calls: Seq<EngineCall>, replies: Seq<EngineReply>) -> bool
        decreases calls.len(),
    {
        calls.len() == 0 || replies.len() == 0 || {
            &&& self.admits(calls.first())
            &&& self.settle(calls.first(), replies.first()).orderly(
                calls.drop_first(),
                replies.drop_first(),
            )
        }
    }

    /// The engine kept its word through the run: no reply handed out a live address.
    pub open spec fn honest(self, calls: Seq<EngineCall>, replies: Seq<EngineReply>) -> bool
        decreases calls.len(),
    {
        calls.len() == 0 || replies.len() == 0 || {
            &&& self.fresh(replies.first())
            &&& self.settle(calls.first(), replies.first()).honest(
                calls.drop_first(),
                replies.drop_first(),
            )
        }
    }
}

/// An opening leaves no file behind. Whatever the engine answers, every call of an opening
/// that came to its end was admitted, and the ledger then holds one file more, the one that
/// is kept in the result, or is as it was, where the opening failed.
pub proof fn lemma_opening_leaves_nothing_behind(
    ledger: Ledger,
    filename: Option<&str>,
    begun: Step<Opening>,
    replies: Seq<EngineReply>,
    calls: Seq<EngineCall>,
    result: Result<TagLibFile, FileError>,
)
    requires
        TagLibFile::opens(filename, begun),
        leads(begun, replies, calls, Step::Done(result)),
        ledger.honest(calls, replies),
    ensures
        ledger.orderly(calls, replies),
        result is Ok ==> ledger.after(calls, replies) == (Ledger {
            files: ledger.files.insert(result->Ok_0.handle()),
            buffers: ledger.buffers,
        }),
        result is Ok ==> !ledger.files.contains(result->Ok_0.handle()),
        result is Err ==> ledger.after(calls, replies) == ledger,
{
    lemma_opening_keeps_or_releases(filename, begun, replies, calls, result);
    reveal_with_fuel(Ledger::after, 4);
    reveal_with_fuel(Ledger::orderly, 4);
    reveal_with_fuel(Ledger::honest, 4);
    if result is Err && result->Err_0 is InvalidTagFile {
        let file = replies[0]->file;
        assert(ledger.files.insert(file).remove(file) =~= ledger.files);
    }
}

/// A read leaves no buffer behind. Every call of a read that came to its end was admitted,
/// and the ledger is then as it was: the one buffer that the engine filled has gone back to
/// it, whether the text in it was well-formed or not.
pub proof fn lemma_read_leaves_nothing_behind(
    ledger: Ledger,
    tag: &TagLibTag,
    field: TextField,
    replies: Seq<EngineReply>,
    calls: Seq<EngineCall>,
    result: Result<String, Utf8Error>,
)
    requires
        leads(tag.reads(field), replies, calls, Step::Done(result)),
        ledger.honest(calls, replies),
    ensures
        ledger.orderly(calls, replies),
        ledger.after(calls, replies) == ledger,
{
    lemma_read_releases_its_buffer_once(tag, field, replies, calls, result);
    reveal_with_fuel(Ledger::after, 3);
    reveal_with_fuel(Ledger::orderly, 3);
    reveal_with_fuel(Ledger::honest, 3);
    let buffer = replies[0]->buffer;
    assert(ledger.buffers.insert(buffer).remove(buffer) =~= ledger.buffers);
}

/// A save releases nothing and takes nothing: the ledger is as it was.
pub proof fn lemma_save_keeps_the_file(
    ledger: Ledger,
    file: &TagLibFile,
    replies: Seq<EngineReply>,
    calls: Seq<EngineCall>,
    result: Result<(), FileError>,
)
    requires
        leads(file.saves(), replies, calls, Step::Done(result)),
        ledger.files.contains(file.handle()),
    ensures
        ledger.orderly(calls, replies),
        ledger.after(calls, replies) == ledger,
{
    lemma_save_makes_one_call(file, replies, calls, result);
    reveal_with_fuel(Ledger::after, 2);
    reveal_with_fuel(Ledger::orderly, 2);
}

/// A close takes the file off the ledger, and nothing else.
pub proof fn lemma_close_settles_the_file(
    ledger: Ledger,
    file: TagLibFile,
    replies: Seq<EngineReply>,
    calls: Seq<EngineCall>,
)
    requires
        leads(file.closes(), replies, calls, Step::Done(())),
        ledger.files.contains(file.handle()),
    ensures
        ledger.orderly(calls, replies),
        ledger.after(calls, replies) == (Ledger {
            files: ledger.files.remove(file.handle()),
            buffers: ledger.buffers,
        }),
{
    lemma_close_releases_once(file, replies, calls);
    reveal_with_fuel(Ledger::after, 2);
    reveal_with_fuel(Ledger::orderly, 2);
}

} // verus!
