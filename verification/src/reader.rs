//! The loader of memory images: files of big-endian words, the first of
//! which is the address at which the rest are placed.

use vstd::prelude::*;
use crate::text::{decimal, decimal_text};

verus! {

/// Why a set of files is no memory image.
#[derive(Debug, PartialEq, Eq, Structural, Clone, Copy)]
pub enum ImageError {
    /// A file's length is odd, so it is no sequence of 16-bit words.
    OddLength,
    /// A file is empty: it lacks the word that gives its origin.
    MissingOrigin,
    /// A file's origin, or the address of one of its words, lies outside
    /// user memory; the address is given.
    OutOfRange(u16),
}

impl ImageError {
    /// The error in words.
    pub open spec fn text(self) -> Seq<char> {
        match self {
            ImageError::OddLength => "File size is not a multiple of 2 (u16 size)"@,
            ImageError::MissingOrigin => "File holds no origin"@,
            ImageError::OutOfRange(address) => "bad binary images, PC: "@ + decimal_text(
                address as int,
            ),
        }
    }

    /// The error in words.
    pub fn message(&self) -> (message: String)
        ensures
            message@ == self.text(),
    {
        match self {
            ImageError::OddLength => "File size is not a multiple of 2 (u16 size)".to_owned(),
            ImageError::MissingOrigin => "File holds no origin".to_owned(),
            ImageError::OutOfRange(address) => {
                let mut message = "bad binary images, PC: ".to_owned();
                message.append(decimal(*address as i32).as_str());
                message
            },
        }
    }
}

/// The words that a file of even length holds, each from two bytes, the high
/// byte first.
pub open spec fn words_of(bytes: Seq<u8>) -> Seq<u16> {
    Seq::new(bytes.len() / 2, |i: int| (bytes[2 * i] * 256 + bytes[2 * i + 1]) as u16)
}

/// Whether an address lies in user memory, `0x3000..=0xFDFF`.
pub open spec fn in_user_memory(address: int) -> bool {
    0x3000 <= address <= 0xFDFF
}

/// The memory after a file's words are placed: the words after the first
/// stand from the origin on, and every other cell keeps its contents.
pub open spec fn placed(memory: Seq<u16>, words: Seq<u16>) -> Result<Seq<u16>, ImageError> {
    if words.len() == 0 {
        Err(ImageError::MissingOrigin)
    } else if !in_user_memory(words[0] as int) {
        Err(ImageError::OutOfRange(words[0]))
    } else if words[0] + words.len() - 1 > 0xFE00 {
        Err(ImageError::OutOfRange(0xFE00))
    } else {
        Ok(
            Seq::new(
                memory.len(),
                |address: int|
                    if words[0] <= address < words[0] + words.len() - 1 {
                        words[address - words[0] + 1]
                    } else {
                        memory[address]
                    },
            ),
        )
    }
}

/// The memory after one file is loaded.
pub open spec fn load_file(memory: Seq<u16>, bytes: Seq<u8>) -> Result<Seq<u16>, ImageError> {
    if bytes.len() % 2 != 0 {
        Err(ImageError::OddLength)
    } else {
        placed(memory, words_of(bytes))
    }
}

/// The memory after the files are loaded in order, a later file writing over
/// an earlier one. The first file that cannot be loaded gives the error.
pub open spec fn load_files(memory: Seq<u16>, files: Seq<Seq<u8>>) -> Result<
    Seq<u16>,
    ImageError,
>
    decreases files.len(),
{
    if files.len() == 0 {
        Ok(memory)
    } else {
        match load_file(memory, files[0]) {
            Err(error) => Err(error),
            Ok(loaded) => load_files(loaded, files.skip(1)),
        }
    }
}

/// The contents of each file in a list.
pub open spec fn contents(files: Seq<Vec<u8>>) -> Seq<Seq<u8>> {
    Seq::new(files.len(), |i: int| files[i]@)
}

/// Reads a file's bytes as big-endian 16-bit words.
pub fn read_all_u16_values_from_file(buffer: &Vec<u8>) -> (values: Result<Vec<u16>, ImageError>)
    ensures
        buffer.len() % 2 != 0 ==> values == Err::<Vec<u16>, ImageError>(ImageError::OddLength),
        buffer.len() % 2 == 0 ==> (values matches Ok(words) && words@ == words_of(buffer@)),
{
    if buffer.len() % 2 != 0 {
        return Err(ImageError::OddLength);
    }
    let mut result: Vec<u16> = Vec::new();
    let mut index: usize = 0;
    while index < buffer.len()
        invariant
            buffer.len() % 2 == 0,
            index % 2 == 0,
            index <= buffer.len(),
            result.len() == index / 2,
            forall|i: int| 0 <= i < result.len() ==> result[i] == words_of(buffer@)[i],
        decreases buffer.len() - index,
    {
        let high: u16 = buffer[index] as u16;
        let low: u16 = buffer[index + 1] as u16;
        let value: u16 = high * 256 + low;
        result.push(value);
        index += 2;
    }
    assert(result@ == words_of(buffer@));
    Ok(result)
}

/// Refuses an address outside user memory.
pub fn check_pc(pc: u16) -> (checked: Result<(), ImageError>)
    ensures
        checked == if in_user_memory(pc as int) {
            Ok::<(), ImageError>(())
        } else {
            Err(ImageError::OutOfRange(pc))
        },
{
    if !(0x3000 <= pc && pc <= 0xFDFF) {
        return Err(ImageError::OutOfRange(pc));
    }
    Ok(())
}

/// Builds the memory image that the files describe, on memory that is zero
/// elsewhere. Each element of `files` holds the bytes of one file.
pub fn read_input_files(files: &Vec<Vec<u8>>) -> (image: Result<[u16; 65536], ImageError>)
    ensures
        match load_files(Seq::new(65536, |i: int| 0u16), contents(files@)) {
            Ok(memory) => image matches Ok(out) && out@ == memory,
            Err(error) => image matches Err(found) && found == error,
        },
{
    let mut out = [0u16;65536];
    let ghost all = contents(files@);
    let mut index: usize = 0;
    assert(out@ == Seq::new(65536, |i: int| 0u16));
    assert(all.skip(0) == all);
    while index < files.len()
        invariant
            index <= files.len(),
            all == contents(files@),
            load_files(Seq::new(65536, |i: int| 0u16), all) == load_files(
                out@,
                all.skip(index as int),
            ),
        decreases files.len() - index,
    {
        let ghost base = out@;
        let ghost rest = all.skip(index as int);
        assert(rest[0] == files[index as int]@);
        assert(rest.skip(1) == all.skip(index + 1));
        let values: Vec<u16> = read_all_u16_values_from_file(&files[index])?;
        if values.len() == 0 {
            return Err(ImageError::MissingOrigin);
        }
        let origin: u16 = values[0];
        let mut pc: u16 = origin;
        check_pc(pc)?;
        let mut next: usize = 1;
        while next < values.len()
            invariant
                1 <= next <= values.len(),
                in_user_memory(origin as int),
                origin == values[0],
                pc == origin + next - 1,
                pc <= 0xFE00,
                base.len() == 65536,
                out@ == Seq::new(
                    65536,
                    |address: int|
                        if origin <= address < origin + next - 1 {
                            values[address - origin + 1]
                        } else {
                            base[address]
                        },
                ),
                load_file(base, rest[0]) == placed(base, values@),
                load_files(Seq::new(65536, |i: int| 0u16), all) == load_files(base, rest),
                rest.len() > 0,
                all == contents(files@),
            decreases values.len() - next,
        {
            check_pc(pc)?;
            out[pc as usize] = values[next];
            pc += 1;
            next += 1;
        }
        assert(placed(base, values@) == Ok::<Seq<u16>, ImageError>(out@));
        index += 1;
    }
    Ok(out)
}

/// Whether a file can be loaded: it holds an even number of bytes and at
/// least an origin, the origin lies in user memory, and so does the address
/// of each word after it.
pub open spec fn loadable(bytes: Seq<u8>) -> bool {
    let words = words_of(bytes);
    &&& bytes.len() % 2 == 0
    &&& words.len() > 0
    &&& in_user_memory(words[0] as int)
    &&& words[0] + words.len() - 1 <= 0xFE00
}

/// Whether a loadable file places a word at `address`.
pub open spec fn covers(bytes: Seq<u8>, address: int) -> bool {
    let words = words_of(bytes);
    words[0] <= address < words[0] + words.len() - 1
}

/// The word that the files place at `address`, if any does: that of the last
/// file which covers the address.
pub open spec fn placed_word(files: Seq<Seq<u8>>, address: int) -> Option<u16>
    decreases files.len(),
{
    if files.len() == 0 {
        None
    } else if covers(files.last(), address) {
        let words = words_of(files.last());
        Some(words[address - words[0] + 1])
    } else {
        placed_word(files.drop_last(), address)
    }
}

/// Loading the files is loading all but the last and then the last.
pub proof fn lemma_load_last(memory: Seq<u16>, files: Seq<Seq<u8>>)
    requires
        files.len() > 0,
    ensures
        load_files(memory, files) == match load_files(memory, files.drop_last()) {
            Ok(loaded) => load_file(loaded, files.last()),
            Err(error) => Err(error),
        },
    decreases files.len(),
{
    if files.len() == 1 {
        assert(files.skip(1) == files.drop_last());
        assert(files.last() == files[0]);
        match load_file(memory, files[0]) {
            Ok(loaded) => {
                assert(load_files(loaded, files.skip(1)) == Ok::<Seq<u16>, ImageError>(loaded));
            },
            Err(error) => {},
        }
    } else {
        let rest = files.skip(1);
        assert(rest.drop_last() == files.drop_last().skip(1));
        assert(rest.last() == files.last());
        assert(files.drop_last()[0] == files[0]);
        match load_file(memory, files[0]) {
            Ok(loaded) => {
                lemma_load_last(loaded, rest);
            },
            Err(error) => {},
        }
    }
}

/// The files load exactly when each of them is loadable. A later file then
/// writes over an earlier one: every cell holds the word of the last file
/// that covers it, and a cell that no file covers holds what it held.
pub proof fn lemma_last_file_wins(memory: Seq<u16>, files: Seq<Seq<u8>>, address: int)
    requires
        memory.len() == 65536,
        0 <= address < 65536,
    ensures
        load_files(memory, files) is Ok <==> forall|i: int|
            0 <= i < files.len() ==> loadable(#[trigger] files[i]),
        load_files(memory, files) matches Ok(loaded) ==> loaded.len() == 65536 && loaded[address]
            == match placed_word(files, address) {
            Some(word) => word,
            None => memory[address],
        },
    decreases files.len(),
{
    if files.len() > 0 {
        lemma_load_last(memory, files);
        lemma_last_file_wins(memory, files.drop_last(), address);
        let before = files.drop_last();
        assert forall|i: int| 0 <= i < before.len() implies before[i] == files[i] by {}
        if load_files(memory, before) is Ok {
            if forall|i: int| 0 <= i < files.len() ==> loadable(#[trigger] files[i]) {
                assert(loadable(files[files.len() - 1]));
            }
            if loadable(files.last()) {
                assert forall|i: int| 0 <= i < files.len() implies loadable(
                    #[trigger] files[i],
                ) by {
                    if i < before.len() {
                        assert(before[i] == files[i]);
                    }
                }
            }
        } else {
            if forall|i: int| 0 <= i < files.len() ==> loadable(#[trigger] files[i]) {
                assert forall|i: int| 0 <= i < before.len() implies loadable(
                    #[trigger] before[i],
                ) by {
                    assert(before[i] == files[i]);
                }
            }
        }
    }
}

} // verus!
