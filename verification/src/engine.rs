//! The pattern-matching engine, YARA, as this library sees it.
//!
//! A compiler takes rule texts one after the other and is then turned into
//! compiled rules, which scan texts. Both are carried as the engine's own
//! types. The contracts speak of them through the rule texts that they were
//! built from, and through whether the compiler follows `include`.
//!
//! The engine's binding turns what the engine says into Rust strings and
//! panics where that is no UTF-8: the messages of the compiler, and the
//! metadata of every rule at each scan. A rule text can put a byte of its own
//! choosing into both, by an escape such as `\xff` in a quoted string, and a
//! character of more than one byte can be cut in two where the engine
//! shortens a message. So this library hands the engine plain rule texts
//! only (see [`engine_can_take`]) and has it read no other file.
use crate::entities::flat_match::{all_taken_from, hit_views, RuleHit};
use vstd::prelude::*;
use vstd::string::*;
use vstd::utf8::*;
use yara::{Compiler, Rules, YaraError};

verus! {

/// yara's `Compiler`: the engine's compiler, carried through unopened.
#[verifier::external_type_specification]
#[verifier::external_body]
pub struct ExCompiler(yara::Compiler);

/// yara's `Rules`: compiled rules, carried through unopened.
#[verifier::external_type_specification]
#[verifier::external_body]
pub struct ExRules(yara::Rules);

/// yara's `YaraError`: an error of the engine itself, carried through
/// unopened.
#[verifier::external_type_specification]
#[verifier::external_body]
pub struct ExYaraError(yara::YaraError);

/// yara's `Error`: why rules could not be added, carried through
/// unopened.
#[verifier::external_type_specification]
#[verifier::external_body]
pub struct ExError(yara::Error);

/// The rule texts that were added to a compiler, in the order in which
/// they were added.
pub uninterp spec fn compiler_sources(compiler: Compiler) -> Seq<Seq<char>>;

/// The rule texts that compiled rules were built from, in the order in
/// which they were added.
pub uninterp spec fn rules_sources(rules: Rules) -> Seq<Seq<char>>;

/// Whether a compiler follows the `include` directive of a rule text, and
/// so reads other files.
pub uninterp spec fn compiler_includes(compiler: Compiler) -> bool;

/// The byte of a backslash.
pub const BACKSLASH: u8 = 92;

/// The byte of the letter `x`.
pub const LETTER_X: u8 = 120;

/// Whether a byte is a hexadecimal digit of 8 or more: `8`, `9`, `a` to
/// `f` or `A` to `F`.
pub open spec fn is_high_hex_digit(byte: u8) -> bool {
    byte == 56 || byte == 57 || 97 <= byte <= 102 || 65 <= byte <= 70
}

/// Whether bytes are plain: each of them is an ASCII character other than
/// NUL, and nowhere does a backslash stand before an `x` and a hexadecimal
/// digit of 8 or more, which is how a quoted string asks for a byte that is
/// not ASCII.
pub open spec fn plain_bytes(bytes: Seq<u8>) -> bool {
    &&& forall|i: int| 0 <= i < bytes.len() ==> 1 <= #[trigger] bytes[i] <= 127
    &&& forall|i: int|
        0 <= i && i + 2 < bytes.len() ==> !(#[trigger] bytes[i] == BACKSLASH && bytes[i + 1]
            == LETTER_X && is_high_hex_digit(bytes[i + 2]))
}

/// Whether a rule text can be handed to the engine: its bytes are plain.
/// No such text can make the engine say or store a byte that is not ASCII.
pub open spec fn engine_can_take(text: Seq<char>) -> bool {
    plain_bytes(encode_utf8(text))
}

/// Whether each of the texts can be handed to the engine.
pub open spec fn all_takeable(rules: Seq<Seq<char>>) -> bool {
    forall|i: int| 0 <= i < rules.len() ==> engine_can_take(#[trigger] rules[i])
}

/// `Compiler::new`: a compiler that holds no rule yet, where the engine
/// could be set up.
pub assume_specification[ yara::Compiler::new ]() -> (made: Result<Compiler, YaraError>)
    ensures
        made matches Ok(compiler) ==> compiler_sources(compiler) == Seq::<Seq<char>>::empty(),
;

/// `Compiler::disable_include_directive`: from now on the compiler refuses
/// `include` and reads no file. The rule texts that it holds stay.
pub assume_specification[ yara::Compiler::disable_include_directive ](compiler: &mut Compiler)
    ensures
        !compiler_includes(*final(compiler)),
        compiler_sources(*final(compiler)) == compiler_sources(*old(compiler)),
;

/// `Compiler::add_rules_str`: the compiler with one more rule text, where
/// the engine accepts the text. The call panics where the text holds a NUL
/// and where a message of the engine about the text is no UTF-8; `requires`
/// leaves both out by asking for a plain text and a compiler that reads no
/// other file.
pub assume_specification[ yara::Compiler::add_rules_str ](compiler: Compiler, rule: &str) -> (added:
    Result<Compiler, yara::Error>)
    requires
        !compiler_includes(compiler),
        engine_can_take(rule@),
    ensures
        added matches Ok(grown) ==> !compiler_includes(grown),
        added matches Ok(grown) ==> compiler_sources(grown) == compiler_sources(compiler).push(
            rule@,
        ),
;

/// `Compiler::compile_rules`: the compiled form of all the rule texts that
/// the compiler holds, and of nothing else where it reads no other file.
pub assume_specification[ yara::Compiler::compile_rules ](compiler: Compiler) -> (compiled: Result<
    Rules,
    YaraError,
>)
    requires
        !compiler_includes(compiler),
    ensures
        compiled matches Ok(rules) ==> rules_sources(rules) == compiler_sources(compiler),
;

/// Calls `Rules::scan_mem` on the bytes of `text`, with a limit of
/// `timeout` seconds, and copies out of each `yara::Rule` that matched what
/// a [`RuleHit`] holds. It may be called on rules that were compiled from
/// plain texts only: the call turns the metadata of every rule into Rust
/// strings and panics where one is no UTF-8. Trusted: the bytes of each
/// match were copied out of the bytes that were scanned. Nothing else is
/// claimed: whether the scan ends in time depends on the machine.
#[verifier::external_body]
pub(crate) fn scan(rules: &Rules, text: &str, timeout: i32) -> (found: Result<
    Vec<RuleHit>,
    YaraError,
>)
    requires
        all_takeable(rules_sources(*rules)),
    ensures
        found matches Ok(hits) ==> all_taken_from(hit_views(hits@), encode_utf8(text@)),
{
    let matched = rules.scan_mem(text.as_bytes(), timeout)?;
    Ok(matched.into_iter().map(|rule| RuleHit {
        namespace: rule.namespace.to_string(),
        identifier: rule.identifier.to_string(),
        tags: rule.tags.iter().map(|tag| tag.to_string()).collect(),
        strings: rule.strings.into_iter().map(|string| {
            string.matches.into_iter().map(|found| found.data).collect()
        }).collect(),
    }).collect())
}

} // verus!
