//! Recovery phrases drawn from a standard wordlist.
use vstd::prelude::*;

use crate::error::WalletError;

verus! {

/// bip39's wordlist languages. Declared with its variants visible, so that
/// verified code can name `Language::English`; the variants carry no data.
#[verifier::external_type_specification]
pub struct ExLanguage(bip39::Language);

/// The number of `' '` characters in `s`.
pub open spec fn space_count(s: Seq<char>) -> nat
    decreases s.len(),
{
    if s.len() == 0 {
        0
    } else {
        space_count(s.drop_last()) + if s.last() == ' ' {
            1nat
        } else {
            0nat
        }
    }
}

/// The number of pieces that splitting `s` at each single space gives.
pub open spec fn word_count_of(s: Seq<char>) -> nat {
    space_count(s) + 1
}

/// The phrase lengths that this wallet accepts.
pub open spec fn is_valid_word_count(n: int) -> bool {
    n == 12 || n == 18 || n == 24
}

/// Whether bip39's `Mnemonic::parse_in` accepts `s` in the English list, the
/// only list compiled in: 12 to 24 words, a multiple of 3, each in the list,
/// with a valid checksum.
pub uninterp spec fn bip39_phrase(s: Seq<char>) -> bool;

/// Relies on bip39::Mnemonic::generate_in and its Display impl: for a word
/// count in 12..=24 that is a multiple of 3 it draws fresh entropy and returns
/// a phrase of that many list words (none holds a space), joined by single
/// spaces, whose checksum is that of the entropy, so that parse_in accepts it.
#[verifier::external_body]
fn generate_phrase(language: bip39::Language, count: usize) -> (r: Option<String>)
    requires
        12 <= count <= 24,
        count % 3 == 0,
    ensures
        r is Some,
        word_count_of(r.unwrap()@) == count,
        bip39_phrase(r.unwrap()@),
{
    match bip39::Mnemonic::generate_in(language, count) {
        Ok(m) => Some(m.to_string()),
        Err(_) => None,
    }
}

/// Relies on bip39::Mnemonic::parse_in: whether `s` is a phrase of the
/// language's list with a valid checksum.
#[verifier::external_body]
fn parse_phrase(language: bip39::Language, s: &str) -> (r: bool)
    ensures
        r == bip39_phrase(s@),
{
    bip39::Mnemonic::parse_in(language, s).is_ok()
}

/// Whether `phrase` is a recovery phrase of the English list with a valid
/// checksum.
pub fn is_valid_phrase(phrase: &str) -> (r: bool)
    ensures
        r == bip39_phrase(phrase@),
{
    parse_phrase(bip39::Language::English, phrase)
}

/// How many words a generated phrase has.
#[derive(Debug, Clone, Copy, PartialEq, Eq, Structural)]
pub enum WordCount {
    /// Short number of words.
    Short(u16),
    /// Medium number of words.
    Medium(u16),
    /// Long number of words.
    Long(u16),
}

impl WordCount {
    /// The number of words this value stands for.
    pub open spec fn spec_count(self) -> u16 {
        match self {
            WordCount::Short(v) => v,
            WordCount::Medium(v) => v,
            WordCount::Long(v) => v,
        }
    }

    /// The number of words this value stands for.
    pub fn count(&self) -> (r: u16)
        ensures
            r == self.spec_count(),
    {
        match self {
            WordCount::Short(v) => *v,
            WordCount::Medium(v) => *v,
            WordCount::Long(v) => *v,
        }
    }

    /// The word count for `value`: 12, 18 and 24 are accepted.
    pub fn try_from(value: u16) -> (r: Result<WordCount, WalletError>)
        ensures
            is_valid_word_count(value as int) <==> r is Ok,
            r is Ok ==> r.unwrap().spec_count() == value,
            value == 12 ==> r == Ok::<WordCount, WalletError>(WordCount::Short(12)),
            value == 18 ==> r == Ok::<WordCount, WalletError>(WordCount::Medium(18)),
            value == 24 ==> r == Ok::<WordCount, WalletError>(WordCount::Long(24)),
            !is_valid_word_count(value as int) ==> r == Err::<WordCount, WalletError>(
                WalletError::InvalidWordCount,
            ),
    {
        match value {
            12 => Ok(WordCount::Short(value)),
            18 => Ok(WordCount::Medium(value)),
            24 => Ok(WordCount::Long(value)),
            _ => Err(WalletError::InvalidWordCount),
        }
    }
}

impl Default for WordCount {
    fn default() -> (r: WordCount)
        ensures
            r == WordCount::Short(12),
    {
        WordCount::Short(12)
    }
}

/// Generate a recovery phrase in `language` with as many words as
/// `word_count` stands for; a count other than 12, 18 or 24 fails before any
/// randomness is drawn.
pub fn mnemonic_in(language: bip39::Language, word_count: WordCount) -> (r: Result<String, WalletError>)
    ensures
        is_valid_word_count(word_count.spec_count() as int) <==> r is Ok,
        r is Ok ==> word_count_of(r.unwrap()@) == word_count.spec_count(),
        r is Ok ==> bip39_phrase(r.unwrap()@),
        r is Err ==> r == Err::<String, WalletError>(WalletError::InvalidWordCount),
{
    let n = word_count.count();
    if n != 12 && n != 18 && n != 24 {
        return Err(WalletError::InvalidWordCount);
    }
    match generate_phrase(language, n as usize) {
        Some(phrase) => Ok(phrase),
        None => Err(WalletError::InvalidWordCount),
    }
}

/// Generate recovery phrase words in `language`.
pub fn words_in(language: bip39::Language, word_count: WordCount) -> (r: Result<String, WalletError>)
    ensures
        is_valid_word_count(word_count.spec_count() as int) <==> r is Ok,
        r is Ok ==> word_count_of(r.unwrap()@) == word_count.spec_count(),
        r is Ok ==> bip39_phrase(r.unwrap()@),
        r is Err ==> r == Err::<String, WalletError>(WalletError::InvalidWordCount),
{
    mnemonic_in(language, word_count)
}

/// Generate recovery phrase words in English.
pub fn words(word_count: WordCount) -> (r: Result<String, WalletError>)
    ensures
        is_valid_word_count(word_count.spec_count() as int) <==> r is Ok,
        r is Ok ==> word_count_of(r.unwrap()@) == word_count.spec_count(),
        r is Ok ==> bip39_phrase(r.unwrap()@),
        r is Err ==> r == Err::<String, WalletError>(WalletError::InvalidWordCount),
{
    mnemonic_in(bip39::Language::English, word_count)
}

} // verus!
