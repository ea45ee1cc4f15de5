//! Loading an object image: a stream of 16-bit big-endian words, the first of
//! which is the address where the rest are stored.
use crate::machine::Machine;
use crate::vm::Lc3;
use vstd::prelude::*;

verus! {

/// Why a word could not be read from an image.
#[derive(Debug, Clone, Copy, PartialEq, Eq, Structural)]
pub enum LoadError {
    /// The stream holds no further byte.
    EndOfStream,
    /// The stream ends after the first byte of a word.
    TruncatedWord,
}

/// The 16-bit word whose big-endian encoding is `high`, `low`.
pub open spec fn be_word(high: u8, low: u8) -> u16 {
    (high * 256 + low) as u16
}

/// The complete big-endian words of `bytes`, in order. A trailing odd byte
/// belongs to no word.
pub open spec fn be_words(bytes: Seq<u8>) -> Seq<u16> {
    Seq::new(bytes.len() / 2, |k: int| be_word(bytes[2 * k], bytes[2 * k + 1]))
}

impl Machine {
    /// This machine after `words` were stored one by one at consecutive
    /// addresses from `origin` on, wrapping from 0xFFFF to 0.
    pub open spec fn store_words(self, origin: u16, words: Seq<u16>) -> Machine
        decreases words.len(),
    {
        if words.len() == 0 {
            self
        } else {
            self.store_words(origin, words.drop_last()).store(
                ((origin + words.len() - 1) % 0x1_0000) as u16,
                words.last(),
            )
        }
    }

    /// This machine after the image `bytes` was loaded: the first complete
    /// word is the origin, and the complete words after it are stored from
    /// there on.
    pub open spec fn load_image(self, bytes: Seq<u8>) -> Machine {
        let words = be_words(bytes);
        if words.len() == 0 {
            self
        } else {
            self.store_words(words[0], words.drop_first())
        }
    }
}

impl Lc3 {
    /// Reads the big-endian word that starts at `position` in `bytes`: its
    /// high byte stands first. Fails when fewer than two bytes are left there,
    /// and says whether none is left or one.
    pub fn read_u16_be(bytes: &[u8], position: usize) -> (result: Result<u16, LoadError>)
        ensures
            result is Ok <==> position + 2 <= bytes@.len(),
            match result {
                Ok(word) => position + 2 <= bytes@.len() && word == be_word(
                    bytes@[position as int],
                    bytes@[position + 1],
                ),
                Err(LoadError::EndOfStream) => position >= bytes@.len(),
                Err(LoadError::TruncatedWord) => position + 1 == bytes@.len(),
            },
    {
        let length: usize = bytes.len();
        if position >= length {
            Err(LoadError::EndOfStream)
        } else if length - position < 2 {
            Err(LoadError::TruncatedWord)
        } else {
            let high: u8 = bytes[position];
            let low: u8 = bytes[position + 1];
            assert(((high as u16) << 8) | (low as u16) == high * 256 + low) by (bit_vector);
            Ok(((high as u16) << 8) | (low as u16))
        }
    }

    /// Loads the object image `image` into memory. Its first word is the
    /// origin; the words after it are stored at the origin, at the address
    /// after it, and so on, to the end of the image.
    ///
    /// An empty image is an error and so is one that ends in the middle of a
    /// word. The words that were complete are stored all the same.
    pub fn insert_file_into_memory(&mut self, image: &[u8]) -> (result: Result<(), LoadError>)
        ensures
            final(self)@ == old(self)@.load_image(image@),
            result is Ok <==> image@.len() >= 2 && image@.len() % 2 == 0,
            result == Err::<(), LoadError>(LoadError::EndOfStream) <==> image@.len() == 0,
            result == Err::<(), LoadError>(LoadError::TruncatedWord) <==> image@.len() % 2 == 1,
    {
        let ghost before = self@;
        let ghost words = be_words(image@);
        let origin: u16 = match Self::read_u16_be(image, 0) {
            Ok(origin) => origin,
            Err(error) => {
                return Err(error);
            },
        };
        let length: usize = image.len();
        let mut address: u16 = origin;
        let mut position: usize = 2;
        assert(words.subrange(1, 1) =~= Seq::empty());
        while position < length
            invariant
                length == image@.len(),
                before == old(self)@,
                words == be_words(image@),
                origin == words[0],
                2 <= position <= length,
                position % 2 == 0,
                address == (origin + position / 2 - 1) % 0x1_0000,
                self@ == before.store_words(origin, words.subrange(1, position as int / 2)),
            decreases length - position,
        {
            match Self::read_u16_be(image, position) {
                Ok(word) => {
                    self.write_mem(address, word);
                    proof {
                        let stored = words.subrange(1, position as int / 2 + 1);
                        assert(stored.drop_last() =~= words.subrange(1, position as int / 2));
                        assert(stored.last() == word);
                    }
                    address = address.wrapping_add(1);
                    position += 2;
                },
                Err(error) => {
                    assert(words.subrange(1, position as int / 2) =~= words.drop_first());
                    return Err(error);
                },
            }
        }
        assert(words.subrange(1, position as int / 2) =~= words.drop_first());
        Ok(())
    }
}

} // verus!
