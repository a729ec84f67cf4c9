//! The tag of an open file: typed accessors for its text and numeric fields.

use crate::engine::leads;
use crate::engine::EngineCall;
use crate::engine::EngineReply;
use crate::engine::Exchange;
use crate::engine::NumberField;
use crate::engine::Step;
use crate::engine::TextField;
use crate::error::NulError;
use crate::text::decodes;
use crate::text::from_transport;
use crate::text::lemma_terminator_is_nul;
use crate::text::lemma_text_of_terminated;
use crate::text::lemma_transport_round_trip;
use crate::text::terminated;
use crate::text::text_len;
use crate::text::text_of;
use crate::text::to_transport;
use core::str::Utf8Error;
use vstd::prelude::*;
use vstd::utf8::encode_utf8;

verus! {

/// A view of the metadata record of an open file.
///
/// It owns nothing and releases nothing: the record lives as long as the file does.
#[derive(Debug, PartialEq, Eq)]
pub struct TagLibTag {
    tag: usize,
}

/// The exchange that reads a text field: the engine fills a transient buffer, the text is
/// read out of it, and the buffer goes back to the engine.
///
/// Like every exchange on a tag it borrows the view, and with it the file, until it is over.
#[derive(Debug, PartialEq, Eq)]
pub enum TextRead<'a> {
    /// The read was asked for.
    AwaitingText { tag: &'a TagLibTag },
    /// The buffer was read, with this outcome, and its release was asked for.
    AwaitingRelease { tag: &'a TagLibTag, text: Result<String, Utf8Error> },
}

/// The exchange that reads a numeric field.
#[derive(Debug, PartialEq, Eq)]
pub struct NumberRead<'a> {
    pub tag: &'a TagLibTag,
}

/// The exchange that writes a text field.
#[derive(Debug, PartialEq, Eq)]
pub struct TextWrite<'a> {
    pub tag: &'a TagLibTag,
}

/// The exchange that writes a numeric field.
#[derive(Debug, PartialEq, Eq)]
pub struct NumberWrite<'a> {
    pub tag: &'a TagLibTag,
}

/// What the engine's number means: zero stands for a field that is absent.
pub open spec fn present(value: u32) -> Option<u32> {
    if value == 0 {
        None
    } else {
        Some(value)
    }
}

impl<'a> Exchange for TextRead<'a> {
    type Output = Result<String, Utf8Error>;

    open spec fn follows(self, reply: EngineReply, step: Step<Self>) -> bool {
        match (self, reply) {
            (TextRead::AwaitingText { tag }, EngineReply::Text { buffer, bytes }) => {
                &&& step matches Step::Call(TextRead::AwaitingRelease { tag: kept, text }, call)
                &&& kept == tag
                &&& decodes(bytes@, text)
                &&& call == EngineCall::FreeBuffer { buffer }
            },
            (TextRead::AwaitingRelease { text, .. }, EngineReply::Nothing) => step == Step::<
                TextRead<'a>,
            >::Done(text),
            _ => step == Step::<TextRead<'a>>::Unanswered(self),
        }
    }

    open spec fn calls_ahead(self) -> nat {
        match self {
            TextRead::AwaitingText { .. } => 1,
            TextRead::AwaitingRelease { .. } => 0,
        }
    }

    fn advance(self, reply: EngineReply) -> (step: Step<Self>) {
        match (self, reply) {
            (TextRead::AwaitingText { tag }, EngineReply::Text { buffer, bytes }) => {
                let (text, release) = TagLibTag::read_and_parse(buffer, bytes.as_slice());
                Step::Call(TextRead::AwaitingRelease { tag, text }, release)
            },
            (TextRead::AwaitingRelease { text, .. }, EngineReply::Nothing) => Step::Done(text),
            (state, _) => Step::Unanswered(state),
        }
    }

    proof fn lemma_nearer(self, reply: EngineReply, step: Step<Self>) {
    }
}

impl<'a> Exchange for NumberRead<'a> {
    type Output = Option<u32>;

    open spec fn follows(self, reply: EngineReply, step: Step<Self>) -> bool {
        step == match reply {
            EngineReply::Number { value } => Step::<NumberRead<'a>>::Done(present(value)),
            _ => Step::<NumberRead<'a>>::Unanswered(self),
        }
    }

    open spec fn calls_ahead(self) -> nat {
        0
    }

    fn advance(self, reply: EngineReply) -> (step: Step<Self>) {
        match reply {
            EngineReply::Number { value } => match value {
                0 => Step::Done(None),
                v => Step::Done(Some(v)),
            },
            _ => Step::Unanswered(self),
        }
    }

    proof fn lemma_nearer(self, reply: EngineReply, step: Step<Self>) {
    }
}

impl<'a> Exchange for TextWrite<'a> {
    type Output = Result<(), NulError>;

    open spec fn follows(self, reply: EngineReply, step: Step<Self>) -> bool {
        step == if reply is Nothing {
            Step::<TextWrite<'a>>::Done(Ok(()))
        } else {
            Step::<TextWrite<'a>>::Unanswered(self)
        }
    }

    open spec fn calls_ahead(self) -> nat {
        0
    }

    fn advance(self, reply: EngineReply) -> (step: Step<Self>) {
        match reply {
            EngineReply::Nothing => Step::Done(Ok(())),
            _ => Step::Unanswered(self),
        }
    }

    proof fn lemma_nearer(self, reply: EngineReply, step: Step<Self>) {
    }
}

impl<'a> Exchange for NumberWrite<'a> {
    type Output = ();

    open spec fn follows(self, reply: EngineReply, step: Step<Self>) -> bool {
        step == if reply is Nothing {
            Step::<NumberWrite<'a>>::Done(())
        } else {
            Step::<NumberWrite<'a>>::Unanswered(self)
        }
    }

    open spec fn calls_ahead(self) -> nat {
        0
    }

    fn advance(self, reply: EngineReply) -> (step: Step<Self>) {
        match reply {
            EngineReply::Nothing => Step::Done(()),
            _ => Step::Unanswered(self),
        }
    }

    proof fn lemma_nearer(self, reply: EngineReply, step: Step<Self>) {
    }
}

impl TagLibTag {
    /// The address under which the engine knows the record.
    pub closed spec fn address(&self) -> usize {
        self.tag
    }

    /// Where reading `field` begins: with the engine's read of it.
    pub open spec fn reads(&self, field: TextField) -> Step<TextRead<'_>> {
        Step::Call(
            TextRead::AwaitingText { tag: self },
            EngineCall::ReadField { tag: self.address(), field },
        )
    }

    /// Where reading the number `field` begins: with the engine's read of it.
    pub open spec fn counts(&self, field: NumberField) -> Step<NumberRead<'_>> {
        Step::Call(
            NumberRead { tag: self },
            EngineCall::ReadNumeric { tag: self.address(), number: field },
        )
    }

    /// `step` is where writing `text` to `field` begins: with the engine's write of its
    /// transport form, or, where `text` holds the NUL character, at its end, refused, with no
    /// call.
    pub open spec fn writes(
        &self,
        field: TextField,
        text: Seq<char>,
        step: Step<TextWrite<'_>>,
    ) -> bool {
        if !text.contains('\0') {
            &&& step matches Step::Call(
                state,
                EngineCall::WriteField { tag, field: written, text: wire },
            )
            &&& state.tag == self
            &&& tag == self.address()
            &&& written == field
            &&& wire@ == terminated(encode_utf8(text))
        } else {
            &&& step matches Step::Done(Err(e))
            &&& e.refused() == encode_utf8(text)
            &&& e.position() == text_len(encode_utf8(text))
        }
    }

    /// Where setting the number `field` to `value` begins: with the engine's write of it.
    pub open spec fn sets(&self, field: NumberField, value: u32) -> Step<NumberWrite<'_>> {
        Step::Call(
            NumberWrite { tag: self },
            EngineCall::WriteNumeric { tag: self.address(), number: field, value },
        )
    }

    /// Views the record that the engine keeps at `ptr`.
    pub fn from_ptr(ptr: usize) -> (tag: TagLibTag)
        ensures
            tag.address() == ptr,
    {
        TagLibTag { tag: ptr }
    }

    /// Reads the text out of the transient buffer at `buffer`, whose bytes are `bytes`, into
    /// an owned value, and names the release of the buffer, which is due whether or not the
    /// bytes were well-formed text.
    pub fn read_and_parse(buffer: usize, bytes: &[u8]) -> (r: (Result<String, Utf8Error>, EngineCall))
        ensures
            decodes(bytes@, r.0),
            r.1 == (EngineCall::FreeBuffer { buffer }),
    {
        let text = from_transport(bytes);
        (text, EngineCall::FreeBuffer { buffer })
    }

    fn read(&self, field: TextField) -> (step: Step<TextRead<'_>>)
        ensures
            step == self.reads(field),
    {
        Step::Call(
            TextRead::AwaitingText { tag: self },
            EngineCall::ReadField { tag: self.tag, field },
        )
    }

    fn count(&self, field: NumberField) -> (step: Step<NumberRead<'_>>)
        ensures
            step == self.counts(field),
    {
        Step::Call(
            NumberRead { tag: self },
            EngineCall::ReadNumeric { tag: self.tag, number: field },
        )
    }

    fn write(&self, field: TextField, text: &str) -> (step: Step<TextWrite<'_>>)
        ensures
            self.writes(field, text@, step),
    {
        match to_transport(text) {
            Ok(wire) => Step::Call(
                TextWrite { tag: self },
                EngineCall::WriteField { tag: self.tag, field, text: wire },
            ),
            Err(e) => Step::Done(Err(e)),
        }
    }

    fn set(&self, field: NumberField, value: u32) -> (step: Step<NumberWrite<'_>>)
        ensures
            step == self.sets(field, value),
    {
        Step::Call(
            NumberWrite { tag: self },
            EngineCall::WriteNumeric { tag: self.tag, number: field, value },
        )
    }

    /// Begins reading the title.
    pub fn title(&self) -> (step: Step<TextRead<'_>>)
        ensures
            step == self.reads(TextField::Title),
    {
        self.read(TextField::Title)
    }

    /// Begins reading the artist.
    pub fn artist(&self) -> (step: Step<TextRead<'_>>)
        ensures
            step == self.reads(TextField::Artist),
    {
        self.read(TextField::Artist)
    }

    /// Begins reading the album.
    pub fn album(&self) -> (step: Step<TextRead<'_>>)
        ensures
            step == self.reads(TextField::Album),
    {
        self.read(TextField::Album)
    }

    /// Begins reading the comment.
    pub fn comment(&self) -> (step: Step<TextRead<'_>>)
        ensures
            step == self.reads(TextField::Comment),
    {
        self.read(TextField::Comment)
    }

    /// Begins reading the genre.
    pub fn genre(&self) -> (step: Step<TextRead<'_>>)
        ensures
            step == self.reads(TextField::Genre),
    {
        self.read(TextField::Genre)
    }

    /// Begins reading the year.
    pub fn year(&self) -> (step: Step<NumberRead<'_>>)
        ensures
            step == self.counts(NumberField::Year),
    {
        self.count(NumberField::Year)
    }

    /// Begins reading the track number.
    pub fn track(&self) -> (step: Step<NumberRead<'_>>)
        ensures
            step == self.counts(NumberField::Track),
    {
        self.count(NumberField::Track)
    }

    /// Begins reading the tempo, in beats per minute.
    pub fn bpm(&self) -> (step: Step<NumberRead<'_>>)
        ensures
            step == self.counts(NumberField::Bpm),
    {
        self.count(NumberField::Bpm)
    }

    /// Begins writing the title.
    pub fn set_title(&self, title: &str) -> (step: Step<TextWrite<'_>>)
        ensures
            self.writes(TextField::Title, title@, step),
    {
        self.write(TextField::Title, title)
    }

    /// Begins writing the artist.
    pub fn set_artist(&self, artist: &str) -> (step: Step<TextWrite<'_>>)
        ensures
            self.writes(TextField::Artist, artist@, step),
    {
        self.write(TextField::Artist, artist)
    }

    /// Begins writing the album.
    pub fn set_album(&self, album: &str) -> (step: Step<TextWrite<'_>>)
        ensures
            self.writes(TextField::Album, album@, step),
    {
        self.write(TextField::Album, album)
    }

    /// Begins writing the comment.
    pub fn set_comment(&self, comment: &str) -> (step: Step<TextWrite<'_>>)
        ensures
            self.writes(TextField::Comment, comment@, step),
    {
        self.write(TextField::Comment, comment)
    }

    /// Begins writing the genre.
    pub fn set_genre(&self, genre: &str) -> (step: Step<TextWrite<'_>>)
        ensures
            self.writes(TextField::Genre, genre@, step),
    {
        self.write(TextField::Genre, genre)
    }

    /// Begins setting the year. The engine takes zero to clear the field: a year of zero
    /// cannot be told from no year.
    pub fn set_year(&self, year: u32) -> (step: Step<NumberWrite<'_>>)
        ensures
            step == self.sets(NumberField::Year, year),
    {
        self.set(NumberField::Year, year)
    }

    /// Begins setting the track number. The engine takes zero to clear the field: a track
    /// of zero cannot be told from no track.
    pub fn set_track(&self, track: u32) -> (step: Step<NumberWrite<'_>>)
        ensures
            step == self.sets(NumberField::Track, track),
    {
        self.set(NumberField::Track, track)
    }
}

/// Every read of a text field that comes to its end has made two calls: the read, and the
/// release of the very buffer that the read filled. The release is made whether the buffer
/// held well-formed text or not, and the result is what the buffer's bytes decode to.
pub proof fn lemma_read_releases_its_buffer_once(
    tag: &TagLibTag,
    field: TextField,
    replies: Seq<EngineReply>,
    calls: Seq<EngineCall>,
    result: Result<String, Utf8Error>,
)
    requires
        leads(tag.reads(field), replies, calls, Step::Done(result)),
    ensures
        replies.len() == 2,
        replies[0] is Text,
        replies[1] is Nothing,
        decodes(replies[0]->bytes@, result),
        calls.len() == 2,
        calls[0] == (EngineCall::ReadField { tag: tag.address(), field }),
        calls[1] == (EngineCall::FreeBuffer { buffer: replies[0]->buffer }),
{
    reveal_with_fuel(leads, 4);
}

/// The engine kept what was written: the buffer that the read was given holds the text that
/// the write carried.
pub open spec fn hands_back(written: Step<TextWrite<'_>>, replies: Seq<EngineReply>) -> bool {
    &&& written matches Step::Call(_, EngineCall::WriteField { text: wire, .. })
    &&& replies.len() > 0
    &&& replies[0] matches EngineReply::Text { bytes, .. }
    &&& text_of(bytes@) == text_of(wire@)
}

/// A text that was written is the text that is read: where `text` holds no NUL character,
/// its write hands the engine a transport form, and any read whose buffer holds those bytes
/// ends well, with `text`.
pub proof fn lemma_written_text_reads_back(
    tag: &TagLibTag,
    field: TextField,
    text: Seq<char>,
    written: Step<TextWrite<'_>>,
    replies: Seq<EngineReply>,
    calls: Seq<EngineCall>,
    result: Result<String, Utf8Error>,
)
    requires
        !text.contains('\0'),
        tag.writes(field, text, written),
        leads(tag.reads(field), replies, calls, Step::Done(result)),
        hands_back(written, replies),
    ensures
        result is Ok,
        result->Ok_0@ == text,
{
    lemma_read_releases_its_buffer_once(tag, field, replies, calls, result);
    lemma_terminator_is_nul(text);
    lemma_text_of_terminated(encode_utf8(text));
    lemma_transport_round_trip(text, result);
}

/// A text that holds the NUL character is refused before anything is asked of the engine:
/// its write is over as it begins, with the fault, and no run of it makes a call.
pub proof fn lemma_refused_text_makes_no_call(
    tag: &TagLibTag,
    field: TextField,
    text: Seq<char>,
    begun: Step<TextWrite<'_>>,
    replies: Seq<EngineReply>,
    calls: Seq<EngineCall>,
    end: Step<TextWrite<'_>>,
)
    requires
        text.contains('\0'),
        tag.writes(field, text, begun),
        leads(begun, replies, calls, end),
    ensures
        calls.len() == 0,
        end == begun,
        end is Done,
        end->Done_0 is Err,
{
    reveal_with_fuel(leads, 2);
}

/// A text without the NUL character is written with one call, which carries its transport
/// form, and the write then ends well.
pub proof fn lemma_accepted_text_is_written_once(
    tag: &TagLibTag,
    field: TextField,
    text: Seq<char>,
    begun: Step<TextWrite<'_>>,
    replies: Seq<EngineReply>,
    calls: Seq<EngineCall>,
    result: Result<(), NulError>,
)
    requires
        !text.contains('\0'),
        tag.writes(field, text, begun),
        leads(begun, replies, calls, Step::Done(result)),
    ensures
        result is Ok,
        replies =~= seq![EngineReply::Nothing],
        calls.len() == 1,
        calls[0] is WriteField,
        calls[0]->WriteField_tag == tag.address(),
        calls[0]->WriteField_field == field,
        calls[0]->text@ == terminated(encode_utf8(text)),
{
    reveal_with_fuel(leads, 3);
}

/// A number that is read is never a present zero: every read of a numeric field that comes
/// to its end has made one call, and the engine's zero has become an absent value, any other
/// number a present one.
pub proof fn lemma_zero_is_absent(
    tag: &TagLibTag,
    field: NumberField,
    replies: Seq<EngineReply>,
    calls: Seq<EngineCall>,
    result: Option<u32>,
)
    requires
        leads(tag.counts(field), replies, calls, Step::Done(result)),
    ensures
        replies.len() == 1,
        replies[0] is Number,
        result == present(replies[0]->value),
        result != Some(0u32),
        result is None <==> replies[0]->value == 0,
        calls.len() == 1,
        calls[0] == (EngineCall::ReadNumeric { tag: tag.address(), number: field }),
{
    reveal_with_fuel(leads, 3);
}

} // verus!
