//! Encoding constructor arguments against an artifact's ABI.
//!
//! The low-level ABI primitive encoding is an outside capability: the
//! type-and-argument tokenizer and the token encoder of the `ethabi`
//! crate stand behind trusted wrappers, their outcomes named by
//! uninterpreted spec functions, while every decision — whether arguments
//! are owed at all, arity, type-text well-formedness and error
//! attribution — is verified here.

use vstd::prelude::*;

use ethabi::token::Tokenizer;

use crate::artifact::{Abi, ConstructorAbi, Param};
use crate::errors::VerifyError;
use crate::text::{count_char, lemma_count_char_step};
use vstd::utf8::is_ascii_chars;

verus! {

#[verifier::external_type_specification]
#[verifier::external_body]
pub struct ExToken(ethabi::Token);

#[verifier::external_type_specification]
#[verifier::external_body]
pub struct ExAbiError(ethabi::Error);

/// A type text the ABI type parser is known to return on rather than
/// abort: free of parentheses, and in every prefix at most as many `]` as
/// `[`. The parser slices below the position of the matching `[` when a
/// name ends in `]`, and underflows that position when no `[` precedes —
/// directly or after stripping an array suffix — so those shapes, and the
/// tuple texts the same bounds arithmetic parses, are kept away from it.
pub open spec fn well_formed_type_text(s: Seq<char>) -> bool {
    (forall|i: int| 0 <= i < s.len() ==> s[i] != '(' && s[i] != ')') && (forall|i: int|
        0 <= i <= s.len() ==> count_char(s.take(i), ']') <= count_char(s.take(i), '['))
}

/// Decides [`well_formed_type_text`].
pub fn check_type_text(s: &str) -> (r: bool)
    ensures
        r == well_formed_type_text(s@),
{
    let len = s.unicode_len();
    let mut opens: usize = 0;
    let mut closes: usize = 0;
    let mut i: usize = 0;
    while i < len
        invariant
            0 <= i <= len,
            len == s@.len(),
            opens <= i,
            closes <= i,
            opens == count_char(s@.take(i as int), '['),
            closes == count_char(s@.take(i as int), ']'),
            forall|j: int| 0 <= j < i ==> s@[j] != '(' && s@[j] != ')',
            forall|j: int|
                0 <= j <= i ==> count_char(s@.take(j), ']') <= count_char(s@.take(j), '['),
        decreases len - i,
    {
        let c = s.get_char(i);
        if c == '(' || c == ')' {
            return false;
        }
        proof {
            lemma_count_char_step(s@, '[', i as int);
            lemma_count_char_step(s@, ']', i as int);
        }
        if c == '[' {
            opens = opens + 1;
        }
        if c == ']' {
            closes = closes + 1;
            if closes > opens {
                return false;
            }
        }
        i = i + 1;
    }
    true
}

/// What tokenizing one `(type text, argument text)` pair yields: the
/// parsed token when the ABI capability accepts the pair, nothing when it
/// rejects it. Parsing and tokenizing depend on the two texts alone.
pub uninterp spec fn spec_parsed_token(ty: Seq<char>, arg: Seq<char>) -> Option<ethabi::Token>;

/// The ABI encoding of a token sequence.
pub uninterp spec fn encoded_of(tokens: Seq<ethabi::Token>) -> Seq<u8>;

/// Relies on `ethabi::param_type::Reader::read` followed by
/// `ethabi::token::Tokenizer::tokenize` of the lenient tokenizer: parses a
/// canonical ABI type text, such as `uint256`, and then the argument text
/// as a value of that type. Both texts must be ASCII because the parsers
/// slice at character positions taken for byte offsets, and the type text
/// must be well formed because the type parser underflows its slice
/// bounds on a `]` with no `[` before it and on parenthesised texts.
#[verifier::external_body]
fn tokenize_pair(type_str: &str, arg: &str) -> (r: Result<ethabi::Token, ethabi::Error>)
    requires
        type_str.is_ascii(),
        arg.is_ascii(),
        well_formed_type_text(type_str@),
    ensures
        r is Ok <==> spec_parsed_token(type_str@, arg@) is Some,
        r matches Ok(t) ==> spec_parsed_token(type_str@, arg@) == Some(t),
{
    let ty = match ethabi::param_type::Reader::read(type_str) {
        Ok(ty) => ty,
        Err(e) => {
            return Err(e);
        },
    };
    ethabi::token::LenientTokenizer::tokenize(&ty, arg)
}

/// Relies on `ethabi::encode`: ABI-encodes a token sequence into the
/// call-data bytes named by [`encoded_of`] — 32-byte words throughout,
/// and no bytes at all for an empty token sequence.
#[verifier::external_body]
fn encode_tokens(tokens: &Vec<ethabi::Token>) -> (r: Vec<u8>)
    ensures
        r@ == encoded_of(tokens@),
        r@.len() % 32 == 0,
        tokens@.len() == 0 ==> r@.len() == 0,
{
    ethabi::encode(tokens)
}

/// Relies on the `Display` rendering of `ethabi::Error`: the diagnostic
/// text of an encoding failure, preserved verbatim for the caller.
#[verifier::external_body]
fn abi_error_text(e: &ethabi::Error) -> (r: String) {
    e.to_string()
}

/// One constructor input and its argument text can be encoded: both texts
/// are ASCII, the type text is well formed, and the ABI capability
/// accepts the pair.
pub open spec fn pair_encodable(ty: String, arg: String) -> bool {
    is_ascii_chars(ty@) && well_formed_type_text(ty@) && is_ascii_chars(arg@)
        && spec_parsed_token(ty@, arg@) is Some
}

/// The argument texts fit the constructor: one per input, each pair
/// encodable.
pub open spec fn encodable(c: ConstructorAbi, args: Seq<String>) -> bool {
    c.inputs@.len() == args.len() && (forall|k: int|
        0 <= k < args.len() ==> pair_encodable(c.inputs@[k].param_type, args[k]))
}

/// The token sequence an encodable argument list parses to.
pub open spec fn token_seq(c: ConstructorAbi, args: Seq<String>) -> Seq<ethabi::Token> {
    Seq::new(args.len(), |k: int| spec_parsed_token(c.inputs@[k].param_type@, args[k]@).unwrap())
}

/// The canonical signature of a constructor with the given inputs:
/// `constructor(`, the comma-separated canonical types, `)`.
pub open spec fn spec_type_list(inputs: Seq<Param>) -> Seq<char>
    decreases inputs.len(),
{
    if inputs.len() == 0 {
        Seq::empty()
    } else if inputs.len() == 1 {
        inputs[0].param_type@
    } else {
        spec_type_list(inputs.drop_last()) + ","@ + inputs.last().param_type@
    }
}

/// See [`spec_type_list`]: the full signature text.
pub open spec fn spec_constructor_signature(inputs: Seq<Param>) -> Seq<char> {
    "constructor("@ + spec_type_list(inputs) + ")"@
}

/// Builds the canonical signature of the synthetic function descriptor a
/// constructor is presented as: no outputs, default mutability, and the
/// constructor's own input types.
pub fn constructor_signature(inputs: &Vec<Param>) -> (r: String)
    ensures
        r@ == spec_constructor_signature(inputs@),
{
    let mut s = String::from_str("constructor(");
    let n = inputs.len();
    let mut k: usize = 0;
    while k < n
        invariant
            0 <= k <= n,
            n == inputs@.len(),
            s@ == "constructor("@ + spec_type_list(inputs@.take(k as int)),
        decreases n - k,
    {
        if k > 0 {
            s.append(",");
        }
        s.append(inputs[k].param_type.as_str());
        proof {
            let taken = inputs@.take(k as int + 1);
            assert(taken.drop_last() =~= inputs@.take(k as int));
            assert(taken.last() == inputs@[k as int]);
            if k == 0 {
                assert(spec_type_list(taken) == inputs@[0].param_type@);
                assert(Seq::<char>::empty() + inputs@[0].param_type@ =~= inputs@[0].param_type@);
            }
            assert(s@ == "constructor("@ + spec_type_list(inputs@.take(k as int + 1)));
        }
        k = k + 1;
    }
    proof {
        assert(inputs@.take(n as int) =~= inputs@);
    }
    s.append(")");
    s
}

/// Derives the ABI-encoded constructor call data for the user-supplied
/// argument strings.
///
/// An ABI without a constructor owes no call data: the result is then
/// `None`, and any supplied argument — even a single one — is rejected
/// with `UnexpectedConstructorArgs` rather than silently dropped. With a
/// constructor declared, the result is the encoding of the parsed tokens
/// exactly when every `(type, argument)` pair is encodable and the counts
/// match; every failure — wrong arity, a non-ASCII or malformed text, a
/// type-coercion failure — is `ArgumentEncodingError`, naming the first
/// offending argument index when one exists.
pub fn constructor_calldata(abi: &Abi, args: &Vec<String>) -> (r: Result<
    Option<Vec<u8>>,
    VerifyError,
>)
    ensures
        abi.constructor is None && args@.len() == 0 ==> r == Ok::<Option<Vec<u8>>, VerifyError>(
            None,
        ),
        abi.constructor is None && args@.len() > 0 ==> r == Err::<Option<Vec<u8>>, VerifyError>(
            VerifyError::UnexpectedConstructorArgs,
        ),
        abi.constructor matches Some(c) ==> ((r is Ok) <==> encodable(c, args@)),
        abi.constructor is Some && encodable(abi.constructor.unwrap(), args@) ==> (r matches Ok(o)
            ==> (o matches Some(b) && b@ == encoded_of(
            token_seq(abi.constructor.unwrap(), args@),
        ) && b@.len() % 32 == 0)),
        abi.constructor is Some ==> (r matches Err(e) ==> e matches
            VerifyError::ArgumentEncodingError { .. }),
        abi.constructor matches Some(c) && c.inputs@.len() != args@.len() ==> (r matches Err(e)
            && e matches VerifyError::ArgumentEncodingError { index: idx, .. } && idx is None),
        abi.constructor is Some && abi.constructor.unwrap().inputs@.len() == args@.len()
            && !encodable(abi.constructor.unwrap(), args@) ==> (r matches Err(e)
            && e matches VerifyError::ArgumentEncodingError { index: idx, .. } && idx matches Some(
            i,
        ) && !pair_encodable(
            abi.constructor.unwrap().inputs@[i as int].param_type,
            args@[i as int],
        ) && (forall|j: int|
            0 <= j < i ==> pair_encodable(
                abi.constructor.unwrap().inputs@[j].param_type,
                args@[j],
            ))),
        abi.constructor matches Some(c) && c.inputs@.len() == 0 && args@.len() == 0 ==> (r matches
            Ok(o) && o matches Some(b) && b@.len() == 0),
{
    match &abi.constructor {
        None => {
            if args.len() > 0 {
                Err(VerifyError::UnexpectedConstructorArgs)
            } else {
                Ok(None)
            }
        },
        Some(c) => {
            let n = c.inputs.len();
            if n != args.len() {
                return Err(
                    VerifyError::ArgumentEncodingError {
                        index: None,
                        detail: String::from_str(
                            "argument count does not match the constructor's input count",
                        ),
                    },
                );
            }
            let mut tokens: Vec<ethabi::Token> = Vec::new();
            let mut k: usize = 0;
            while k < n
                invariant
                    0 <= k <= n,
                    n == c.inputs@.len(),
                    n == args@.len(),
                    abi.constructor matches Some(cc) && cc == *c,
                    tokens@.len() == k,
                    forall|j: int| 0 <= j < k ==> pair_encodable(c.inputs@[j].param_type, args@[j]),
                    forall|j: int|
                        0 <= j < k ==> tokens@[j] == spec_parsed_token(
                            c.inputs@[j].param_type@,
                            args@[j]@,
                        ).unwrap(),
                decreases n - k,
            {
                let type_str = &c.inputs[k].param_type;
                if !type_str.as_str().is_ascii() {
                    proof {
                        assert(!pair_encodable(c.inputs@[k as int].param_type, args@[k as int]));
                        assert(!encodable(*c, args@));
                    }
                    return Err(
                        VerifyError::ArgumentEncodingError {
                            index: Some(k),
                            detail: String::from_str("parameter type is not ASCII"),
                        },
                    );
                }
                if !check_type_text(type_str.as_str()) {
                    proof {
                        assert(!pair_encodable(c.inputs@[k as int].param_type, args@[k as int]));
                        assert(!encodable(*c, args@));
                    }
                    return Err(
                        VerifyError::ArgumentEncodingError {
                            index: Some(k),
                            detail: String::from_str("parameter type is malformed"),
                        },
                    );
                }
                if !args[k].as_str().is_ascii() {
                    proof {
                        assert(!pair_encodable(c.inputs@[k as int].param_type, args@[k as int]));
                        assert(!encodable(*c, args@));
                    }
                    return Err(
                        VerifyError::ArgumentEncodingError {
                            index: Some(k),
                            detail: String::from_str("argument is not ASCII"),
                        },
                    );
                }
                let token = match tokenize_pair(type_str.as_str(), args[k].as_str()) {
                    Ok(t) => t,
                    Err(e) => {
                        proof {
                            assert(!pair_encodable(c.inputs@[k as int].param_type, args@[k as int]));
                            assert(!encodable(*c, args@));
                        }
                        return Err(
                            VerifyError::ArgumentEncodingError {
                                index: Some(k),
                                detail: abi_error_text(&e),
                            },
                        );
                    },
                };
                tokens.push(token);
                k = k + 1;
            }
            let bytes = encode_tokens(&tokens);
            proof {
                assert(tokens@ =~= token_seq(*c, args@));
            }
            Ok(Some(bytes))
        },
    }
}

} // verus!
