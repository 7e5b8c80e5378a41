use vstd::prelude::*;
use vstd::slice::{slice_subrange, slice_to_vec};
use vstd::utf8::{decode_utf8, decode_utf8_encode_utf8, encode_utf8, encode_utf8_decode_utf8, encode_utf8_valid_utf8, valid_utf8};
use crate::error::AppError;
use crate::text::text_from_utf8;

verus! {

// The wire format. An instruction is one tag byte, `0` for `Mint`, and the
// arguments of the variant. A text is its length in bytes as a 32-bit
// little-endian number, and its bytes in UTF-8. An optional text is one byte,
// `0` for none and `1` for some, and then the text if there is one.

/// Tag byte of the `Mint` instruction.
pub const MINT_TAG: u8 = 0;

/// Flag byte of an absent optional value.
pub const ABSENT: u8 = 0;

/// Flag byte of a present optional value.
pub const PRESENT: u8 = 1;

/// Arguments of the mint instruction: where the token's metadata document
/// lives, and an optional title.
#[derive(Clone, Debug, PartialEq)]
pub struct MintNftArgs {
    pub uri: String,
    pub title: Option<String>,
}

/// The instructions this program understands.
#[derive(Clone, Debug, PartialEq)]
pub enum GameInstruction {
    Mint(MintNftArgs),
}

/// The mathematical value of a [`MintNftArgs`].
pub struct MintNftArgsView {
    pub uri: Seq<char>,
    pub title: Option<Seq<char>>,
}

/// The mathematical value of a [`GameInstruction`].
pub enum GameInstructionView {
    Mint(MintNftArgsView),
}

/// The characters of an optional text.
pub open spec fn optional_text_view(text: Option<String>) -> Option<Seq<char>> {
    match text {
        Some(s) => Some(s@),
        None => None,
    }
}

impl View for MintNftArgs {
    type V = MintNftArgsView;

    open spec fn view(&self) -> MintNftArgsView {
        MintNftArgsView { uri: self.uri@, title: optional_text_view(self.title) }
    }
}

impl View for GameInstruction {
    type V = GameInstructionView;

    open spec fn view(&self) -> GameInstructionView {
        match *self {
            GameInstruction::Mint(args) => GameInstructionView::Mint(args@),
        }
    }
}

// ---------------------------------------------------------------------------
// Numbers
// ---------------------------------------------------------------------------

/// The four bytes of a 32-bit number, lowest first.
pub open spec fn spec_u32_le(number: u32) -> Seq<u8> {
    seq![
        (number % 256) as u8,
        ((number / 256) % 256) as u8,
        ((number / 65536) % 256) as u8,
        (number / 16777216) as u8,
    ]
}

/// The 32-bit number that four bytes spell, lowest first.
pub open spec fn spec_u32_from_le(b0: u8, b1: u8, b2: u8, b3: u8) -> u32 {
    (b0 + 256 * b1 + 65536 * b2 + 16777216 * b3) as u32
}

/// The four bytes of a 32-bit number, lowest first.
pub fn u32_to_le(number: u32) -> (bytes: [u8; 4])
    ensures
        bytes@ == spec_u32_le(number),
{
    let bytes = [
        (number % 256) as u8,
        ((number / 256) % 256) as u8,
        ((number / 65536) % 256) as u8,
        (number / 16777216) as u8,
    ];
    assert(bytes@ =~= spec_u32_le(number));
    bytes
}

/// The 32-bit number that four bytes spell, lowest first.
pub fn u32_from_le(b0: u8, b1: u8, b2: u8, b3: u8) -> (number: u32)
    ensures
        number == spec_u32_from_le(b0, b1, b2, b3),
        spec_u32_le(number) == seq![b0, b1, b2, b3],
{
    proof {
        lemma_u32_le_canonical(b0, b1, b2, b3);
    }
    (b0 as u32) + 256 * (b1 as u32) + 65536 * (b2 as u32) + 16777216 * (b3 as u32)
}

/// Reading the four bytes of a number gives the number back.
pub proof fn lemma_u32_le_round_trip(number: u32)
    ensures
        spec_u32_le(number).len() == 4,
        spec_u32_from_le(
            spec_u32_le(number)[0],
            spec_u32_le(number)[1],
            spec_u32_le(number)[2],
            spec_u32_le(number)[3],
        ) == number,
{
    let bytes = spec_u32_le(number);
    let low: int = (number % 256) as int;
    let rest: int = (number / 256) as int;
    let second: int = rest % 256;
    let upper: int = rest / 256;
    let third: int = upper % 256;
    let fourth: int = upper / 256;
    assert(number / 65536 == upper);
    assert(number / 16777216 == fourth);
    assert(number == low + 256 * (second + 256 * (third + 256 * fourth)));
    assert(bytes[0] == low && bytes[1] == second && bytes[2] == third && bytes[3] == fourth);
}

/// Writing the number that four bytes spell gives the bytes back.
pub proof fn lemma_u32_le_canonical(b0: u8, b1: u8, b2: u8, b3: u8)
    ensures
        spec_u32_le(spec_u32_from_le(b0, b1, b2, b3)) == seq![b0, b1, b2, b3],
{
    let number: int = b0 + 256 * b1 + 65536 * b2 + 16777216 * b3;
    assert(0 <= number <= u32::MAX);
    assert(number % 256 == b0);
    assert(number / 256 == b1 + 256 * b2 + 65536 * b3);
    assert((number / 256) % 256 == b1);
    assert(number / 65536 == b2 + 256 * b3);
    assert((number / 65536) % 256 == b2);
    assert(number / 16777216 == b3);
    assert(spec_u32_le(number as u32) =~= seq![b0, b1, b2, b3]);
}

// ---------------------------------------------------------------------------
// Encoding
// ---------------------------------------------------------------------------

/// Whether a text can be written: its UTF-8 length fits 32 bits.
pub open spec fn text_encodable(text: Seq<char>) -> bool {
    encode_utf8(text).len() <= u32::MAX
}

/// The bytes of a text: length prefix, then UTF-8.
#[verifier::opaque]
pub open spec fn encode_text(text: Seq<char>) -> Seq<u8> {
    spec_u32_le(encode_utf8(text).len() as u32) + encode_utf8(text)
}

/// The bytes of an optional text: flag, then the text if there is one.
pub open spec fn encode_optional_text(text: Option<Seq<char>>) -> Seq<u8> {
    match text {
        None => seq![ABSENT],
        Some(t) => seq![PRESENT] + encode_text(t),
    }
}

impl MintNftArgsView {
    /// Whether the arguments can be written: each text fits its length
    /// prefix.
    pub open spec fn encodable(self) -> bool {
        &&& text_encodable(self.uri)
        &&& (self.title matches Some(t) ==> text_encodable(t))
    }

    /// The bytes of the arguments: the document address, then the title.
    pub open spec fn wire(self) -> Seq<u8> {
        encode_text(self.uri) + encode_optional_text(self.title)
    }
}

impl GameInstructionView {
    /// Whether the instruction can be written.
    pub open spec fn encodable(self) -> bool {
        match self {
            GameInstructionView::Mint(args) => args.encodable(),
        }
    }

    /// The bytes of the instruction: the tag, then the arguments.
    pub open spec fn wire(self) -> Seq<u8> {
        match self {
            GameInstructionView::Mint(args) => seq![MINT_TAG] + args.wire(),
        }
    }
}

// ---------------------------------------------------------------------------
// Decoding
// ---------------------------------------------------------------------------

/// Reads a text off the front of `bytes`: the text and the bytes after it.
/// There is none where the length prefix is cut short, where fewer bytes
/// follow than it announces, or where those bytes are not valid UTF-8.
#[verifier::opaque]
pub open spec fn parse_text(bytes: Seq<u8>) -> Option<(Seq<char>, Seq<u8>)> {
    if bytes.len() < 4 {
        None
    } else {
        let len = spec_u32_from_le(bytes[0], bytes[1], bytes[2], bytes[3]) as int;
        if bytes.len() - 4 < len {
            None
        } else if !valid_utf8(bytes.subrange(4, 4 + len)) {
            None
        } else {
            Some((decode_utf8(bytes.subrange(4, 4 + len)), bytes.skip(4 + len)))
        }
    }
}

/// Reads an optional text off the front of `bytes`. There is none where the
/// flag is missing or is neither `0` nor `1`, or where the text that a `1`
/// announces cannot be read.
pub open spec fn parse_optional_text(bytes: Seq<u8>) -> Option<(Option<Seq<char>>, Seq<u8>)> {
    if bytes.len() < 1 {
        None
    } else if bytes[0] == ABSENT {
        Some((None, bytes.skip(1)))
    } else if bytes[0] == PRESENT {
        match parse_text(bytes.skip(1)) {
            Some((text, rest)) => Some((Some(text), rest)),
            None => None,
        }
    } else {
        None
    }
}

/// Reads the arguments of `Mint` off the front of `bytes`.
pub open spec fn parse_args(bytes: Seq<u8>) -> Option<(MintNftArgsView, Seq<u8>)> {
    match parse_text(bytes) {
        None => None,
        Some((uri, after_uri)) => match parse_optional_text(after_uri) {
            None => None,
            Some((title, rest)) => Some((MintNftArgsView { uri, title }, rest)),
        },
    }
}

/// Reads an instruction off the front of `bytes`: the instruction and the
/// bytes after it. There is none where the tag is missing or unknown, or
/// where the arguments cannot be read.
pub open spec fn parse_instruction(bytes: Seq<u8>) -> Option<(GameInstructionView, Seq<u8>)> {
    if bytes.len() < 1 {
        None
    } else if bytes[0] != MINT_TAG {
        None
    } else {
        match parse_args(bytes.skip(1)) {
            Some((args, rest)) => Some((GameInstructionView::Mint(args), rest)),
            None => None,
        }
    }
}

/// The instruction that `bytes` spell, all of them: bytes left over after
/// the instruction make the whole input invalid.
pub open spec fn spec_decode(bytes: Seq<u8>) -> Option<GameInstructionView> {
    match parse_instruction(bytes) {
        Some((instruction, rest)) => if rest.len() == 0 {
            Some(instruction)
        } else {
            None
        },
        None => None,
    }
}

/// The instruction at the front of `bytes`, whatever follows it.
pub open spec fn spec_decode_prefix(bytes: Seq<u8>) -> Option<GameInstructionView> {
    match parse_instruction(bytes) {
        Some((instruction, _)) => Some(instruction),
        None => None,
    }
}

// ---------------------------------------------------------------------------
// Writing and reading
// ---------------------------------------------------------------------------

/// Appends `bytes` to `out`.
fn append_bytes(out: &mut Vec<u8>, bytes: &[u8])
    ensures
        final(out)@ == old(out)@ + bytes@,
{
    let mut i: usize = 0;
    while i < bytes.len()
        invariant
            i <= bytes@.len(),
            out@ == old(out)@ + bytes@.subrange(0, i as int),
        decreases bytes@.len() - i,
    {
        out.push(bytes[i]);
        assert(bytes@.subrange(0, i + 1) =~= bytes@.subrange(0, i as int).push(bytes@[i as int]));
        i = i + 1;
    }
    assert(bytes@.subrange(0, i as int) =~= bytes@);
}

/// Appends the bytes of a text to `out`, if the text can be written, and
/// says whether it could.
fn write_text(out: &mut Vec<u8>, text: &str) -> (written: bool)
    ensures
        written <==> text_encodable(text@),
        written ==> final(out)@ == old(out)@ + encode_text(text@),
        !written ==> final(out)@ == old(out)@,
{
    let body = text.as_bytes();
    if body.len() > u32::MAX as usize {
        return false;
    }
    let prefix = u32_to_le(body.len() as u32);
    append_bytes(out, prefix.as_slice());
    append_bytes(out, body);
    proof {
        reveal(encode_text);
    }
    assert(out@ =~= old(out)@ + encode_text(text@));
    true
}

impl MintNftArgs {
    /// Appends the bytes of the arguments to `out`, if they can be written,
    /// and says whether they could.
    fn write(&self, out: &mut Vec<u8>) -> (written: bool)
        ensures
            written <==> self@.encodable(),
            written ==> final(out)@ == old(out)@ + self@.wire(),
    {
        if !write_text(out, self.uri.as_str()) {
            return false;
        }
        match &self.title {
            None => {
                out.push(ABSENT);
                assert(out@ =~= old(out)@ + self@.wire());
                true
            },
            Some(title) => {
                out.push(PRESENT);
                let written = write_text(out, title.as_str());
                assert(written ==> out@ =~= old(out)@ + self@.wire());
                written
            },
        }
    }
}

impl GameInstruction {
    /// The bytes of the instruction, or `None` where a text is too long for
    /// its length prefix.
    pub fn try_to_vec(&self) -> (bytes: Option<Vec<u8>>)
        ensures
            bytes is Some <==> self@.encodable(),
            bytes matches Some(written) ==> written@ == self@.wire(),
    {
        let mut out: Vec<u8> = Vec::new();
        match self {
            GameInstruction::Mint(args) => {
                out.push(MINT_TAG);
                if args.write(&mut out) {
                    assert(out@ =~= self@.wire());
                    Some(out)
                } else {
                    None
                }
            },
        }
    }

    /// Decodes an instruction from the whole of `input`. Fails with
    /// `DecodeError` where the bytes do not spell an instruction: an empty
    /// input, an unknown tag, a text cut short or not in UTF-8, an option
    /// flag other than `0` or `1`, or bytes left over after the instruction.
    pub fn try_from_slice(input: &[u8]) -> (decoded: Result<GameInstruction, AppError>)
        ensures
            match spec_decode(input@) {
                Some(instruction) => decoded matches Ok(got) && got@ == instruction,
                None => decoded == Err::<GameInstruction, AppError>(AppError::DecodeError),
            },
    {
        match read_instruction(input) {
            Some((instruction, next)) => {
                if next == input.len() {
                    Ok(instruction)
                } else {
                    Err(AppError::DecodeError)
                }
            },
            None => Err(AppError::DecodeError),
        }
    }
}

/// Reads a text from `data` at `start`: the text and the position after it.
fn read_text(data: &[u8], start: usize) -> (read: Option<(String, usize)>)
    requires
        start <= data@.len(),
    ensures
        match parse_text(data@.skip(start as int)) {
            Some((text, rest)) => read matches Some((got, next)) && got@ == text && start <= next
                <= data@.len() && data@.skip(next as int) == rest,
            None => read is None,
        },
{
    let ghost bytes = data@.skip(start as int);
    proof {
        reveal(parse_text);
    }
    if data.len() - start < 4 {
        return None;
    }
    let len = u32_from_le(data[start], data[start + 1], data[start + 2], data[start + 3]);
    let body_start = start + 4;
    if ((data.len() - body_start) as u64) < len as u64 {
        return None;
    }
    let body_end = body_start + len as usize;
    let body = slice_to_vec(slice_subrange(data, body_start, body_end));
    assert(body@ =~= bytes.subrange(4, 4 + len));
    assert(data@.skip(body_end as int) =~= bytes.skip(4 + len));
    match text_from_utf8(body) {
        Some(text) => Some((text, body_end)),
        None => None,
    }
}

/// Reads an optional text from `data` at `start`: the text, if there is
/// one, and the position after it.
fn read_optional_text(data: &[u8], start: usize) -> (read: Option<(Option<String>, usize)>)
    requires
        start <= data@.len(),
    ensures
        match parse_optional_text(data@.skip(start as int)) {
            Some((text, rest)) => read matches Some((got, next)) && optional_text_view(got) == text
                && start <= next <= data@.len() && data@.skip(next as int) == rest,
            None => read is None,
        },
{
    if data.len() - start < 1 {
        return None;
    }
    let flag = data[start];
    assert(data@.skip(start as int).skip(1) =~= data@.skip(start + 1));
    if flag == ABSENT {
        Some((None, start + 1))
    } else if flag == PRESENT {
        match read_text(data, start + 1) {
            Some((text, next)) => Some((Some(text), next)),
            None => None,
        }
    } else {
        None
    }
}

/// Reads an instruction off the front of `data`: the instruction and the
/// number of bytes it took.
pub fn read_instruction(data: &[u8]) -> (read: Option<(GameInstruction, usize)>)
    ensures
        match parse_instruction(data@) {
            Some((instruction, rest)) => read matches Some((got, next)) && got@ == instruction && next
                <= data@.len() && data@.skip(next as int) == rest,
            None => read is None,
        },
{
    if data.len() < 1 {
        return None;
    }
    if data[0] != MINT_TAG {
        return None;
    }
    let (uri, after_uri) = match read_text(data, 1) {
        Some(read) => read,
        None => {
            return None;
        },
    };
    let (title, next) = match read_optional_text(data, after_uri) {
        Some(read) => read,
        None => {
            return None;
        },
    };
    Some((GameInstruction::Mint(MintNftArgs { uri, title }), next))
}

// ---------------------------------------------------------------------------
// Laws of the format
// ---------------------------------------------------------------------------

/// A written text is read back as it was, and what follows it is left over.
pub proof fn lemma_parse_written_text(text: Seq<char>, rest: Seq<u8>)
    requires
        text_encodable(text),
    ensures
        parse_text(encode_text(text) + rest) == Some((text, rest)),
{
    reveal(encode_text);
    reveal(parse_text);
    let body = encode_utf8(text);
    let len = body.len() as u32;
    let bytes = encode_text(text) + rest;
    lemma_u32_le_round_trip(len);
    encode_utf8_valid_utf8(text);
    encode_utf8_decode_utf8(text);
    assert(bytes[0] == spec_u32_le(len)[0]);
    assert(bytes[1] == spec_u32_le(len)[1]);
    assert(bytes[2] == spec_u32_le(len)[2]);
    assert(bytes[3] == spec_u32_le(len)[3]);
    assert(bytes.subrange(4, 4 + len) =~= body);
    assert(bytes.skip(4 + len) =~= rest);
}

/// Bytes that a text was read from are that text's bytes, and the text can
/// be written.
pub proof fn lemma_parsed_text_is_canonical(bytes: Seq<u8>)
    requires
        parse_text(bytes) is Some,
    ensures
        parse_text(bytes) matches Some((text, rest)) && bytes == encode_text(text) + rest && text_encodable(
            text,
        ) && rest.len() <= bytes.len(),
{
    reveal(encode_text);
    reveal(parse_text);
    let len = spec_u32_from_le(bytes[0], bytes[1], bytes[2], bytes[3]);
    let body = bytes.subrange(4, 4 + len);
    let text = decode_utf8(body);
    decode_utf8_encode_utf8(body);
    lemma_u32_le_canonical(bytes[0], bytes[1], bytes[2], bytes[3]);
    assert(encode_utf8(text).len() == len);
    assert(bytes =~= encode_text(text) + bytes.skip(4 + len));
}

/// A written optional text is read back as it was.
pub proof fn lemma_parse_written_optional_text(text: Option<Seq<char>>, rest: Seq<u8>)
    requires
        text matches Some(t) ==> text_encodable(t),
    ensures
        parse_optional_text(encode_optional_text(text) + rest) == Some((text, rest)),
{
    let bytes = encode_optional_text(text) + rest;
    match text {
        None => {
            assert(bytes.skip(1) =~= rest);
        },
        Some(t) => {
            assert(bytes.skip(1) =~= encode_text(t) + rest);
            lemma_parse_written_text(t, rest);
        },
    }
}

/// Bytes that an optional text was read from are its bytes.
pub proof fn lemma_parsed_optional_text_is_canonical(bytes: Seq<u8>)
    requires
        parse_optional_text(bytes) is Some,
    ensures
        parse_optional_text(bytes) matches Some((text, rest)) && bytes == encode_optional_text(text) + rest
            && (text matches Some(t) ==> text_encodable(t)) && rest.len() <= bytes.len(),
{
    if bytes[0] == ABSENT {
        assert(bytes =~= seq![ABSENT] + bytes.skip(1));
    } else {
        let tail = bytes.skip(1);
        lemma_parsed_text_is_canonical(tail);
        let (text, rest) = parse_text(tail)->0;
        assert(tail == encode_text(text) + rest);
        assert(bytes =~= seq![PRESENT] + tail);
        assert(seq![PRESENT] + (encode_text(text) + rest) =~= (seq![PRESENT] + encode_text(text)) + rest);
    }
}

/// Written arguments are read back as they were.
pub proof fn lemma_parse_written_args(args: MintNftArgsView, rest: Seq<u8>)
    requires
        args.encodable(),
    ensures
        parse_args(args.wire() + rest) == Some((args, rest)),
{
    let tail = encode_optional_text(args.title) + rest;
    assert(args.wire() + rest =~= encode_text(args.uri) + tail);
    lemma_parse_written_text(args.uri, tail);
    lemma_parse_written_optional_text(args.title, rest);
}

/// Bytes that arguments were read from are their bytes.
pub proof fn lemma_parsed_args_are_canonical(bytes: Seq<u8>)
    requires
        parse_args(bytes) is Some,
    ensures
        parse_args(bytes) matches Some((args, rest)) && bytes == args.wire() + rest && args.encodable()
            && rest.len() <= bytes.len(),
{
    lemma_parsed_text_is_canonical(bytes);
    let (uri, after_uri) = parse_text(bytes)->0;
    lemma_parsed_optional_text_is_canonical(after_uri);
    let (title, rest) = parse_optional_text(after_uri)->0;
    assert(bytes == encode_text(uri) + after_uri);
    assert(after_uri == encode_optional_text(title) + rest);
    assert(encode_text(uri) + (encode_optional_text(title) + rest) =~= (encode_text(uri)
        + encode_optional_text(title)) + rest);
}

/// Decoding a written instruction gives the instruction back.
pub proof fn lemma_decode_written_instruction(instruction: GameInstructionView)
    requires
        instruction.encodable(),
    ensures
        spec_decode(instruction.wire()) == Some(instruction),
        spec_decode_prefix(instruction.wire()) == Some(instruction),
{
    match instruction {
        GameInstructionView::Mint(args) => {
            let bytes = instruction.wire();
            assert(bytes.skip(1) =~= args.wire() + Seq::<u8>::empty());
            lemma_parse_written_args(args, Seq::<u8>::empty());
        },
    }
}

/// The round trip: bytes that decode to an instruction are exactly the bytes
/// of that instruction, so decoding and encoding again gives the same bytes.
pub proof fn lemma_encode_decoded_instruction(bytes: Seq<u8>)
    requires
        spec_decode(bytes) is Some,
    ensures
        spec_decode(bytes) matches Some(instruction) && instruction.encodable() && instruction.wire()
            == bytes,
{
    lemma_prefix_is_canonical(bytes);
    let (instruction, rest) = parse_instruction(bytes)->0;
    assert(rest.len() == 0);
    assert(instruction.wire() + rest =~= instruction.wire());
}

/// An instruction read off the front of some bytes is spelled by the bytes
/// that were read: the input is the instruction's bytes and what was left.
pub proof fn lemma_prefix_is_canonical(bytes: Seq<u8>)
    requires
        parse_instruction(bytes) is Some,
    ensures
        parse_instruction(bytes) matches Some((instruction, rest)) && instruction.encodable() && bytes
            == instruction.wire() + rest,
{
    let tail = bytes.skip(1);
    lemma_parsed_args_are_canonical(tail);
    let (args, rest) = parse_args(tail)->0;
    assert(tail == args.wire() + rest);
    assert(bytes =~= seq![MINT_TAG] + tail);
    assert(seq![MINT_TAG] + (args.wire() + rest) =~= (seq![MINT_TAG] + args.wire()) + rest);
}

} // verus!
