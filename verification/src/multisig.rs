//! Helpers for manipulating with the redeem scripts which used in multisignature transactions.

use crate::encoding::{decode_hex, encode_hex, hex_decode, hex_encode, lemma_hex_round_trip};
use crate::keys::{is_public_key, PublicKey};
use crate::script::{
    count_token, instructions, le_value, lemma_instructions_after_count,
    lemma_instructions_after_opcode, lemma_instructions_after_push, opcode_push_num, push_int,
    push_int_bytes, push_num_of, push_opcode, push_slice, push_slice_bytes, read_uint,
    script_instructions, tokens_of, uint_of, Instruction, Token, OP_CHECKMULTISIG,
};
use vstd::prelude::*;

verus! {

/// Possible errors related to the redeem script.
#[derive(Debug, Clone, Copy, PartialEq, Eq, Structural)]
pub enum RedeemScriptError {
    /// Not enough keys for the quorum.
    IncorrectQuorum,
    /// Quorum was not set during the redeem script building.
    NoQuorum,
    /// Not enough public keys. At least one public key must be specified.
    NotEnoughPublicKeys,
    /// Given script is not the standard redeem script.
    NotStandard,
}

impl RedeemScriptError {
    /// Describes the error in words.
    pub fn to_string(&self) -> (r: String)
        ensures
            r@ == match self {
                RedeemScriptError::IncorrectQuorum => "Not enough keys for the quorum."@,
                RedeemScriptError::NoQuorum => "Quorum was not set."@,
                RedeemScriptError::NotEnoughPublicKeys =>
                    "Not enough public keys. At least one public key must be specified."@,
                RedeemScriptError::NotStandard => "Given script is not the standard redeem script."@,
            },
    {
        match self {
            RedeemScriptError::IncorrectQuorum => "Not enough keys for the quorum.".to_owned(),
            RedeemScriptError::NoQuorum => "Quorum was not set.".to_owned(),
            RedeemScriptError::NotEnoughPublicKeys =>
                "Not enough public keys. At least one public key must be specified.".to_owned(),
            RedeemScriptError::NotStandard =>
                "Given script is not the standard redeem script.".to_owned(),
        }
    }
}

/// Redeem script content as a mathematical value.
pub struct ContentView {
    /// The public keys in their compressed form, in the script's order.
    pub public_keys: Seq<Seq<u8>>,
    /// The number of signatures required.
    pub quorum: nat,
}

/// Redeem script content.
#[derive(Debug, PartialEq, Eq)]
pub struct RedeemScriptContent {
    /// The public keys of the participants of this redeem script.
    pub public_keys: Vec<PublicKey>,
    /// The number of signatures required to spend the input which corresponds
    /// to the given redeem script.
    pub quorum: usize,
}

/// The compressed forms of a list of keys.
pub open spec fn key_views(keys: Seq<PublicKey>) -> Seq<Seq<u8>> {
    keys.map_values(|key: PublicKey| key@)
}

impl View for RedeemScriptContent {
    type V = ContentView;

    open spec fn view(&self) -> ContentView {
        ContentView { public_keys: key_views(self.public_keys@), quorum: self.quorum as nat }
    }
}

/// The number that a script element stands for where a count is expected: the
/// number of a number opcode from 1 to 16, or the unsigned number in a data
/// push of at most eight bytes. The opcode that pushes -1 is no count.
pub open spec fn token_number(token: Token) -> Option<nat> {
    match token {
        Token::Op(op) => match push_num_of(op) {
            Some(num) => if num < 0 {
                None
            } else {
                Some(num as nat)
            },
            None => None,
        },
        Token::Push(data) => match uint_of(data) {
            Some(value) => if value <= usize::MAX {
                Some(value)
            } else {
                None
            },
            None => None,
        },
        Token::Invalid => None,
    }
}

/// Whether a script element is read as a public key: a data push of any
/// length but one. A push of one byte is the count that follows the keys.
pub open spec fn is_key_token(token: Token) -> bool {
    token matches Token::Push(data) && data.len() != 1
}

/// The payload of a data push.
pub open spec fn push_data(token: Token) -> Seq<u8> {
    match token {
        Token::Push(data) => data,
        _ => Seq::empty(),
    }
}

/// The position of the first element at or behind `from` that is not read as a public key.
pub open spec fn key_run_end(tokens: Seq<Token>, from: int) -> int
    decreases tokens.len() - from,
{
    if 0 <= from < tokens.len() && is_key_token(tokens[from]) {
        key_run_end(tokens, from + 1)
    } else {
        from
    }
}

/// The quorum at the head of a script. A script that is empty or starts with
/// anything but a number or a data push has no quorum; a data push that is
/// too long for a number is not standard.
pub open spec fn quorum_of(tokens: Seq<Token>) -> Result<nat, RedeemScriptError> {
    if tokens.len() == 0 {
        Err(RedeemScriptError::NoQuorum)
    } else {
        match token_number(tokens[0]) {
            Some(quorum) => Ok(quorum),
            None => if tokens[0] is Push {
                Err(RedeemScriptError::NotStandard)
            } else {
                Err(RedeemScriptError::NoQuorum)
            },
        }
    }
}

/// What the elements of a script hold as a redeem script: a count, the public
/// keys, their number, and the opcode that checks the signatures, with nothing
/// behind it.
///
/// The layout is tested first, from the head of the script to its end. A
/// script in that layout is then held to what a builder accepts, in the
/// builder's order: the quorum is not 0, there is a key, and the quorum does
/// not exceed the number of keys.
pub open spec fn parse_tokens(tokens: Seq<Token>) -> Result<ContentView, RedeemScriptError> {
    match quorum_of(tokens) {
        Err(e) => Err(e),
        Ok(quorum) => {
            let end = key_run_end(tokens, 1);
            let keys = Seq::new(
                (end - 1) as nat,
                |i: int| PublicKey::spec_from_slice(push_data(tokens[i + 1])),
            );
            if exists|i: int| 0 <= i < keys.len() && (#[trigger] keys[i]) is None {
                Err(RedeemScriptError::NotStandard)
            } else if end >= tokens.len() || token_number(tokens[end]) is None {
                Err(RedeemScriptError::NotStandard)
            } else if token_number(tokens[end]).unwrap() != end - 1 {
                Err(RedeemScriptError::NotEnoughPublicKeys)
            } else if tokens.len() != end + 2 || tokens[end + 1] != Token::Op(OP_CHECKMULTISIG) {
                Err(RedeemScriptError::NotStandard)
            } else if quorum == 0 {
                Err(RedeemScriptError::NoQuorum)
            } else if keys.len() == 0 {
                Err(RedeemScriptError::NotEnoughPublicKeys)
            } else if keys.len() < quorum {
                Err(RedeemScriptError::IncorrectQuorum)
            } else {
                Ok(
                    ContentView {
                        public_keys: keys.map_values(|key: Option<Seq<u8>>| key.unwrap()),
                        quorum,
                    },
                )
            }
        },
    }
}

/// What a script holds as a redeem script.
pub open spec fn parse_script(script: Seq<u8>) -> Result<ContentView, RedeemScriptError> {
    parse_tokens(script_instructions(script))
}

/// The data pushes of a list of keys, one behind the other.
pub open spec fn keys_bytes(keys: Seq<Seq<u8>>) -> Seq<u8>
    decreases keys.len(),
{
    if keys.len() == 0 {
        Seq::empty()
    } else {
        keys_bytes(keys.drop_last()) + push_slice_bytes(keys.last())
    }
}

/// The redeem script of a quorum and a list of keys: the quorum, the keys,
/// their number, and the opcode that checks the signatures.
pub open spec fn script_bytes(content: ContentView) -> Seq<u8> {
    push_int_bytes(content.quorum) + keys_bytes(content.public_keys) + push_int_bytes(
        content.public_keys.len(),
    ) + seq![OP_CHECKMULTISIG]
}

/// What building a redeem script gives: the quorum has to be set, there has to
/// be a key, and the quorum may not exceed the number of keys.
pub open spec fn build_script(content: ContentView) -> Result<Seq<u8>, RedeemScriptError> {
    if content.quorum == 0 {
        Err(RedeemScriptError::NoQuorum)
    } else if content.public_keys.len() == 0 {
        Err(RedeemScriptError::NotEnoughPublicKeys)
    } else if content.public_keys.len() < content.quorum {
        Err(RedeemScriptError::IncorrectQuorum)
    } else {
        Ok(script_bytes(content))
    }
}

fn is_key_instruction(instruction: &Instruction) -> (r: bool)
    ensures
        r == is_key_token(instruction@),
{
    match instruction {
        Instruction::PushBytes(data) => data.len() != 1,
        _ => false,
    }
}

fn read_usize(instruction: &Instruction) -> (r: Option<usize>)
    ensures
        match r {
            Some(value) => token_number(instruction@) == Some(value as nat),
            None => token_number(instruction@) is None,
        },
{
    match instruction {
        Instruction::Op(op) => match opcode_push_num(*op) {
            Some(num) => if num < 0 {
                None
            } else {
                Some(num as usize)
            },
            None => None,
        },
        Instruction::PushBytes(data) => match read_uint(data.as_slice()) {
            Some(value) => if value <= usize::MAX as u64 {
                Some(value as usize)
            } else {
                None
            },
            None => None,
        },
        Instruction::Invalid => None,
    }
}

/// A run of keys ends at or behind the place where it starts, and within the script.
proof fn lemma_key_run_end_bounds(tokens: Seq<Token>, from: int)
    requires
        0 <= from <= tokens.len(),
    ensures
        from <= key_run_end(tokens, from) <= tokens.len(),
        key_run_end(tokens, from) < tokens.len() ==> !is_key_token(
            tokens[key_run_end(tokens, from)],
        ),
        forall|i: int| from <= i < key_run_end(tokens, from) ==> is_key_token(#[trigger] tokens[i]),
    decreases tokens.len() - from,
{
    if from < tokens.len() && is_key_token(tokens[from]) {
        lemma_key_run_end_bounds(tokens, from + 1);
    }
}

impl RedeemScriptContent {
    /// Tries to fetch redeem script content from the given raw script and returns error
    /// if the script doesn't satisfy `BIP-16` standard.
    ///
    /// The content of a script that is accepted has a quorum from 1 up to the
    /// number of its keys.
    pub fn parse(script: &[u8]) -> (r: Result<RedeemScriptContent, RedeemScriptError>)
        ensures
            match r {
                Ok(content) => parse_script(script@) == Ok::<ContentView, RedeemScriptError>(
                    content@,
                ) && 1 <= content@.quorum <= content@.public_keys.len(),
                Err(e) => parse_script(script@) == Err::<ContentView, RedeemScriptError>(e),
            },
    {
        let elements = instructions(script);
        let ghost tokens = script_instructions(script@);
        proof {
            assert(tokens.len() == elements@.len());
            assert forall|i: int| 0 <= i < tokens.len() implies tokens[i] == (#[trigger] elements@[i])@ by {
                assert(tokens_of(elements@)[i] == elements@[i]@);
            }
        }
        // Parses quorum.
        if elements.len() == 0 {
            return Err(RedeemScriptError::NoQuorum);
        }
        let quorum = match read_usize(&elements[0]) {
            Some(quorum) => quorum,
            None => {
                return Err(
                    match &elements[0] {
                        Instruction::PushBytes(_) => RedeemScriptError::NotStandard,
                        _ => RedeemScriptError::NoQuorum,
                    },
                );
            },
        };
        let ghost end = key_run_end(tokens, 1);
        let ghost keys = Seq::new(
            (end - 1) as nat,
            |i: int| PublicKey::spec_from_slice(push_data(tokens[i + 1])),
        );
        proof {
            lemma_key_run_end_bounds(tokens, 1);
        }
        // Parses public keys.
        let mut public_keys: Vec<PublicKey> = Vec::new();
        let mut pos: usize = 1;
        let mut more = pos < elements.len() && is_key_instruction(&elements[pos]);
        while more
            invariant
                tokens == script_instructions(script@),
                tokens.len() == elements@.len() <= usize::MAX,
                forall|i: int| 0 <= i < tokens.len() ==> tokens[i] == (#[trigger] elements@[i])@,
                token_number(tokens[0]) == Some(quorum as nat),
                1 <= pos <= end <= tokens.len(),
                end == key_run_end(tokens, 1),
                end == key_run_end(tokens, pos as int),
                keys == Seq::new(
                    (end - 1) as nat,
                    |i: int| PublicKey::spec_from_slice(push_data(tokens[i + 1])),
                ),
                more == (pos < tokens.len() && is_key_token(tokens[pos as int])),
                public_keys@.len() == pos - 1,
                forall|i: int| 0 <= i < pos - 1 ==> keys[i] == Some((#[trigger] public_keys@[i])@),
            decreases tokens.len() - pos,
        {
            proof {
                lemma_key_run_end_bounds(tokens, pos + 1);
                assert(tokens[pos as int] == elements@[pos as int]@);
            }
            let key = match &elements[pos] {
                Instruction::PushBytes(data) => PublicKey::from_slice(data.as_slice()),
                _ => None,
            };
            match key {
                Some(key) => {
                    proof {
                        assert(keys[pos - 1] == Some(key@));
                    }
                    public_keys.push(key);
                },
                None => {
                    proof {
                        assert(keys[pos - 1] is None);
                    }
                    return Err(RedeemScriptError::NotStandard);
                },
            }
            pos += 1;
            more = pos < elements.len() && is_key_instruction(&elements[pos]);
        }
        proof {
            assert(pos == end);
            assert forall|i: int| 0 <= i < keys.len() implies (#[trigger] keys[i]) is Some by {
                assert(keys[i] == Some(public_keys@[i]@));
            }
            assert(keys.map_values(|key: Option<Seq<u8>>| key.unwrap()) =~= key_views(
                public_keys@,
            ));
        }
        // Checks tail.
        if pos >= elements.len() {
            return Err(RedeemScriptError::NotStandard);
        }
        let public_keys_len = match read_usize(&elements[pos]) {
            Some(len) => len,
            None => {
                return Err(RedeemScriptError::NotStandard);
            },
        };
        if public_keys.len() != public_keys_len {
            return Err(RedeemScriptError::NotEnoughPublicKeys);
        }
        if elements.len() - pos != 2 {
            return Err(RedeemScriptError::NotStandard);
        }
        match &elements[pos + 1] {
            Instruction::Op(op) => {
                if *op != OP_CHECKMULTISIG {
                    return Err(RedeemScriptError::NotStandard);
                }
            },
            _ => {
                return Err(RedeemScriptError::NotStandard);
            },
        }
        // Checks the quorum against the keys.
        if quorum == 0 {
            return Err(RedeemScriptError::NoQuorum);
        }
        if public_keys.len() == 0 {
            return Err(RedeemScriptError::NotEnoughPublicKeys);
        }
        if public_keys.len() < quorum {
            return Err(RedeemScriptError::IncorrectQuorum);
        }
        // Returns parsed script.
        Ok(RedeemScriptContent { quorum, public_keys })
    }
}

/// The data pushes that a list of keys is read back as.
spec fn key_tokens(keys: Seq<Seq<u8>>) -> Seq<Token> {
    keys.map_values(|key: Seq<u8>| Token::Push(key))
}

/// The elements that the redeem script of a quorum and a list of keys is read back as.
spec fn script_tokens(content: ContentView) -> Seq<Token> {
    seq![count_token(content.quorum)] + key_tokens(content.public_keys) + seq![
        count_token(content.public_keys.len()),
        Token::Op(OP_CHECKMULTISIG),
    ]
}

/// The pushes of a list of keys at the head of a script are read back as
/// those keys, and the rest of the script is read behind them.
proof fn lemma_instructions_after_keys(keys: Seq<Seq<u8>>, rest: Seq<u8>)
    requires
        forall|i: int| 0 <= i < keys.len() ==> is_public_key(#[trigger] keys[i]),
    ensures
        script_instructions(keys_bytes(keys) + rest) == key_tokens(keys) + script_instructions(
            rest,
        ),
    decreases keys.len(),
{
    if keys.len() == 0 {
        assert(keys_bytes(keys) + rest =~= rest);
        assert(key_tokens(keys) + script_instructions(rest) =~= script_instructions(rest));
    } else {
        let front = keys.drop_last();
        let tail = push_slice_bytes(keys.last()) + rest;
        assert(keys_bytes(keys) + rest =~= keys_bytes(front) + tail);
        lemma_instructions_after_keys(front, tail);
        lemma_instructions_after_push(keys.last(), rest);
        assert(key_tokens(front) + (seq![Token::Push(keys.last())] + script_instructions(rest))
            =~= key_tokens(keys) + script_instructions(rest));
    }
}

/// The redeem script of a quorum and at most 127 keys is read back as the
/// quorum, the keys, their number and the opcode that checks the signatures.
proof fn lemma_instructions_of_script(content: ContentView)
    requires
        1 <= content.quorum <= 127,
        1 <= content.public_keys.len() <= 127,
        forall|i: int|
            0 <= i < content.public_keys.len() ==> is_public_key(#[trigger] content.public_keys[i]),
    ensures
        script_instructions(script_bytes(content)) == script_tokens(content),
{
    let keys = content.public_keys;
    let last = seq![OP_CHECKMULTISIG];
    let count = push_int_bytes(keys.len()) + last;
    let body = keys_bytes(keys) + count;
    assert(script_bytes(content) =~= push_int_bytes(content.quorum) + body);
    lemma_instructions_after_count(content.quorum, body);
    lemma_instructions_after_keys(keys, count);
    lemma_instructions_after_count(keys.len(), last);
    assert(last =~= seq![OP_CHECKMULTISIG] + Seq::<u8>::empty());
    lemma_instructions_after_opcode(OP_CHECKMULTISIG, Seq::empty());
    assert(script_instructions(Seq::<u8>::empty()) =~= Seq::<Token>::empty());
    assert(script_instructions(script_bytes(content)) =~= script_tokens(content));
}

/// In the elements of a redeem script, the run of keys ends at the count behind them.
proof fn lemma_key_run_of_script(content: ContentView, from: int)
    requires
        1 <= content.public_keys.len() <= 127,
        forall|i: int|
            0 <= i < content.public_keys.len() ==> is_public_key(#[trigger] content.public_keys[i]),
        1 <= from <= content.public_keys.len() + 1,
    ensures
        key_run_end(script_tokens(content), from) == content.public_keys.len() + 1,
    decreases content.public_keys.len() + 1 - from,
{
    let tokens = script_tokens(content);
    let n = content.public_keys.len();
    if from <= n {
        assert(tokens[from] == Token::Push(content.public_keys[from - 1]));
        assert(is_public_key(content.public_keys[from - 1]));
        lemma_key_run_of_script(content, from + 1);
    } else {
        assert(tokens[from] == count_token(n));
    }
}

/// A count from 1 to 127 is read back from the element that it is pushed as.
proof fn lemma_count_token_number(n: nat)
    requires
        1 <= n <= 127,
    ensures
        token_number(count_token(n)) == Some(n),
        !is_key_token(count_token(n)),
{
    if n > 16 {
        let data = seq![n as u8];
        assert(data.skip(1).len() == 0);
        assert(le_value(data) == n) by {
            reveal_with_fuel(le_value, 2);
        }
    }
}

/// Reading the redeem script that was built from a quorum and at most 127
/// valid keys gives the quorum and the keys back.
///
/// With 128 keys or more the number of keys takes a push of two bytes, which
/// is read as a key that does not decode.
pub proof fn lemma_parse_of_built_script(content: ContentView)
    requires
        1 <= content.quorum <= content.public_keys.len() <= 127,
        forall|i: int|
            0 <= i < content.public_keys.len() ==> is_public_key(#[trigger] content.public_keys[i]),
    ensures
        build_script(content) == Ok::<Seq<u8>, RedeemScriptError>(script_bytes(content)),
        parse_script(script_bytes(content)) == Ok::<ContentView, RedeemScriptError>(content),
{
    let tokens = script_tokens(content);
    let n = content.public_keys.len() as int;
    lemma_instructions_of_script(content);
    lemma_key_run_of_script(content, 1);
    lemma_count_token_number(content.quorum);
    lemma_count_token_number(n as nat);
    assert(tokens[0] == count_token(content.quorum));
    assert(tokens[n + 1] == count_token(n as nat));
    assert(tokens[n + 2] == Token::Op(OP_CHECKMULTISIG));
    let keys = Seq::new(
        n as nat,
        |i: int| PublicKey::spec_from_slice(push_data(tokens[i + 1])),
    );
    assert forall|i: int| 0 <= i < n implies (#[trigger] keys[i]) == Some(
        content.public_keys[i],
    ) by {
        assert(tokens[i + 1] == Token::Push(content.public_keys[i]));
        assert(is_public_key(content.public_keys[i]));
    }
    assert(keys.map_values(|key: Option<Seq<u8>>| key.unwrap()) =~= content.public_keys);
}

/// A standard redeem script holds a quorum from 1 up to the number of its
/// keys, and every key is one that the engine reads back unchanged.
pub proof fn lemma_parsed_content_is_valid(script: Seq<u8>)
    requires
        parse_script(script) is Ok,
    ensures
        1 <= parse_script(script).unwrap().quorum <= parse_script(script).unwrap().public_keys.len(),
        forall|i: int|
            0 <= i < parse_script(script).unwrap().public_keys.len() ==> is_public_key(
                #[trigger] parse_script(script).unwrap().public_keys[i],
            ),
{
    let content = parse_script(script).unwrap();
    let tokens = script_instructions(script);
    let end = key_run_end(tokens, 1);
    let keys = Seq::new(
        (end - 1) as nat,
        |i: int| PublicKey::spec_from_slice(push_data(tokens[i + 1])),
    );
    assert forall|i: int| 0 <= i < content.public_keys.len() implies is_public_key(
        #[trigger] content.public_keys[i],
    ) by {
        assert(keys[i] is Some);
        assert(content.public_keys[i] == keys[i].unwrap());
    }
}

/// The content of a standard redeem script with at most 127 keys builds a
/// script with the same content.
pub proof fn lemma_parsed_content_builds(script: Seq<u8>)
    requires
        parse_script(script) is Ok,
        parse_script(script).unwrap().public_keys.len() <= 127,
    ensures
        build_script(parse_script(script).unwrap()) == Ok::<Seq<u8>, RedeemScriptError>(
            script_bytes(parse_script(script).unwrap()),
        ),
        parse_script(script_bytes(parse_script(script).unwrap())) == parse_script(script),
{
    lemma_parsed_content_is_valid(script);
    lemma_parse_of_built_script(parse_script(script).unwrap());
}

/// A standard redeem script.
#[derive(Debug, Clone, PartialEq, Eq)]
pub struct RedeemScript(Vec<u8>);

impl View for RedeemScript {
    type V = Seq<u8>;

    closed spec fn view(&self) -> Seq<u8> {
        self.0@
    }
}

/// The ways in which a text is refused as a redeem script.
#[derive(Debug, Clone, Copy, PartialEq, Eq, Structural)]
pub enum FromStrError {
    /// The text is not an even number of hexadecimal digits.
    InvalidHex,
    /// The bytes are no standard redeem script.
    Script(RedeemScriptError),
}

impl RedeemScript {
    /// Whether the script reads as a redeem script: it is in the layout, and
    /// its quorum is from 1 up to the number of its keys.
    pub open spec fn is_standard(&self) -> bool {
        parse_script(self@) is Ok
    }

    /// What reading a hexadecimal text as a redeem script gives.
    pub open spec fn spec_from_str(text: Seq<char>) -> Result<Seq<u8>, FromStrError> {
        match hex_decode(text) {
            None => Err(FromStrError::InvalidHex),
            Some(bytes) => match parse_script(bytes) {
                Ok(_) => Ok(bytes),
                Err(e) => Err(FromStrError::Script(e)),
            },
        }
    }

    /// Tries to parse a raw script as a standard redeem script and returns error
    /// if the script doesn't satisfy `BIP-16` standard.
    pub fn from_script(script: Vec<u8>) -> (r: Result<RedeemScript, RedeemScriptError>)
        ensures
            match r {
                Ok(redeem_script) => redeem_script@ == script@ && redeem_script.is_standard(),
                Err(e) => parse_script(script@) == Err::<ContentView, RedeemScriptError>(e),
            },
    {
        match RedeemScriptContent::parse(script.as_slice()) {
            Ok(_) => Ok(RedeemScript(script)),
            Err(e) => Err(e),
        }
    }

    /// Returns the redeem script content.
    pub fn content(&self) -> (r: RedeemScriptContent)
        requires
            self.is_standard(),
        ensures
            parse_script(self@) == Ok::<ContentView, RedeemScriptError>(r@),
            1 <= r@.quorum <= r@.public_keys.len(),
    {
        proof {
            lemma_parsed_content_is_valid(self@);
        }
        match RedeemScriptContent::parse(self.0.as_slice()) {
            Ok(content) => content,
            Err(_) => vstd::pervasive::unreached(),
        }
    }

    /// Returns the redeem script content where the script is standard, and
    /// nothing where it is not.
    pub fn checked_content(&self) -> (r: Option<RedeemScriptContent>)
        ensures
            match r {
                Some(content) => parse_script(self@) == Ok::<ContentView, RedeemScriptError>(
                    content@,
                ) && 1 <= content@.quorum <= content@.public_keys.len(),
                None => parse_script(self@) is Err,
            },
    {
        match RedeemScriptContent::parse(self.0.as_slice()) {
            Ok(_) => Some(self.content()),
            Err(_) => None,
        }
    }

    /// The bytes of the script.
    pub fn as_bytes(&self) -> (r: &[u8])
        ensures
            r@ == self@,
    {
        self.0.as_slice()
    }

    /// Gives up the bytes of the script.
    pub fn into_bytes(self) -> (r: Vec<u8>)
        ensures
            r@ == self@,
    {
        self.0
    }

    /// Writes the script as lower-case hexadecimal text.
    pub fn to_string(&self) -> (r: String)
        ensures
            r@ == hex_encode(self@),
    {
        encode_hex(self.0.as_slice())
    }

    /// Reads a redeem script from hexadecimal text.
    pub fn from_str(text: &str) -> (r: Result<RedeemScript, FromStrError>)
        ensures
            match r {
                Ok(redeem_script) => Self::spec_from_str(text@) == Ok::<Seq<u8>, FromStrError>(
                    redeem_script@,
                ) && redeem_script.is_standard(),
                Err(e) => Self::spec_from_str(text@) == Err::<Seq<u8>, FromStrError>(e),
            },
    {
        match decode_hex(text) {
            None => Err(FromStrError::InvalidHex),
            Some(bytes) => match RedeemScript::from_script(bytes) {
                Ok(redeem_script) => Ok(redeem_script),
                Err(e) => Err(FromStrError::Script(e)),
            },
        }
    }
}

impl std::str::FromStr for RedeemScript {
    type Err = FromStrError;

    /// Reads a redeem script from hexadecimal text.
    fn from_str(s: &str) -> (r: Result<RedeemScript, FromStrError>)
        ensures
            match r {
                Ok(redeem_script) => RedeemScript::spec_from_str(s@) == Ok::<
                    Seq<u8>,
                    FromStrError,
                >(redeem_script@) && redeem_script.is_standard(),
                Err(e) => RedeemScript::spec_from_str(s@) == Err::<Seq<u8>, FromStrError>(e),
            },
    {
        RedeemScript::from_str(s)
    }
}

/// Reading the hexadecimal text of a standard redeem script gives the script back.
pub proof fn lemma_from_str_of_to_string(script: Seq<u8>)
    requires
        parse_script(script) is Ok,
    ensures
        RedeemScript::spec_from_str(hex_encode(script)) == Ok::<Seq<u8>, FromStrError>(script),
{
    lemma_hex_round_trip(script);
}

/// The redeem script builder.
#[derive(Debug)]
pub struct RedeemScriptBuilder(RedeemScriptContent);

impl View for RedeemScriptBuilder {
    type V = ContentView;

    closed spec fn view(&self) -> ContentView {
        self.0@
    }
}

impl RedeemScriptBuilder {
    /// Creates builder.
    pub fn new() -> (r: RedeemScriptBuilder)
        ensures
            r@ == (ContentView { public_keys: Seq::empty(), quorum: 0 }),
    {
        let builder = RedeemScriptBuilder(RedeemScriptContent { quorum: 0, public_keys: Vec::new() });
        assert(builder@.public_keys =~= Seq::empty());
        builder
    }

    /// Creates builder for the given quorum value.
    pub fn with_quorum(quorum: usize) -> (r: RedeemScriptBuilder)
        ensures
            r@ == (ContentView { public_keys: Seq::empty(), quorum: quorum as nat }),
    {
        let builder = RedeemScriptBuilder(RedeemScriptContent { quorum, public_keys: Vec::new() });
        assert(builder@.public_keys =~= Seq::empty());
        builder
    }

    /// Creates builder for the given bitcoin public keys.
    pub fn with_public_keys(public_keys: Vec<PublicKey>) -> (r: RedeemScriptBuilder)
        ensures
            r@ == (ContentView {
                public_keys: key_views(public_keys@),
                quorum: public_keys@.len(),
            }),
    {
        let quorum = public_keys.len();
        RedeemScriptBuilder(RedeemScriptContent { public_keys, quorum })
    }

    /// Adds a new bitcoin public key.
    pub fn public_key(&mut self, pub_key: PublicKey) -> (r: &mut RedeemScriptBuilder)
        ensures
            r@ == (ContentView {
                public_keys: old(self)@.public_keys.push(pub_key@),
                quorum: old(self)@.quorum,
            }),
            *final(self) == *final(r),
    {
        self.0.public_keys.push(pub_key);
        assert(self@.public_keys =~= old(self)@.public_keys.push(pub_key@));
        self
    }

    /// Sets the number of signatures required to spend the input.
    pub fn quorum(&mut self, quorum: usize) -> (r: &mut RedeemScriptBuilder)
        ensures
            r@ == (ContentView { public_keys: old(self)@.public_keys, quorum: quorum as nat }),
            *final(self) == *final(r),
    {
        self.0.quorum = quorum;
        self
    }

    /// Finalizes the redeem script building.
    pub fn to_script(&self) -> (r: Result<RedeemScript, RedeemScriptError>)
        ensures
            match r {
                Ok(script) => build_script(self@) == Ok::<Seq<u8>, RedeemScriptError>(script@),
                Err(e) => build_script(self@) == Err::<Seq<u8>, RedeemScriptError>(e),
            },
            self@.quorum == 0 ==> r == Err::<RedeemScript, RedeemScriptError>(
                RedeemScriptError::NoQuorum,
            ),
            self@.quorum > 0 && self@.public_keys.len() == 0 ==> r == Err::<
                RedeemScript,
                RedeemScriptError,
            >(RedeemScriptError::NotEnoughPublicKeys),
            0 < self@.public_keys.len() < self@.quorum ==> r == Err::<
                RedeemScript,
                RedeemScriptError,
            >(RedeemScriptError::IncorrectQuorum),
            1 <= self@.quorum <= self@.public_keys.len() ==> r is Ok,
            self@.public_keys.len() <= 127 ==> (r matches Ok(script) ==> parse_script(script@)
                == Ok::<ContentView, RedeemScriptError>(self@)),
    {
        let total_count = self.0.public_keys.len();
        // Check preconditions
        if self.0.quorum == 0 {
            return Err(RedeemScriptError::NoQuorum);
        }
        if total_count == 0 {
            return Err(RedeemScriptError::NotEnoughPublicKeys);
        }
        if total_count < self.0.quorum {
            return Err(RedeemScriptError::IncorrectQuorum);
        }
        // Construct simple redeem script in form like <1 <pubkey1> <pubkey2> 2 CHECKMULTISIG>
        let mut keys: Vec<u8> = Vec::new();
        let mut i: usize = 0;
        proof {
            assert(key_views(self.0.public_keys@).take(0) =~= Seq::empty());
        }
        while i < total_count
            invariant
                i <= total_count == self.0.public_keys@.len(),
                keys@ == keys_bytes(self@.public_keys.take(i as int)),
                keys@.len() == 34 * i,
                forall|j: int| 0 <= j < i ==> is_public_key(#[trigger] self@.public_keys[j]),
            decreases total_count - i,
        {
            let key = self.0.public_keys[i].serialize();
            proof {
                let views = self@.public_keys;
                assert(views.take(i + 1).drop_last() =~= views.take(i as int));
                assert(views.take(i + 1).last() == key@);
            }
            push_slice(&mut keys, key.as_slice());
            i += 1;
        }
        // The pushes of the keys fit into memory, so their number fits a script number.
        let pushed = keys.len();
        assert(34 * total_count == pushed && total_count <= i64::MAX);
        let mut script: Vec<u8> = Vec::new();
        push_int(&mut script, self.0.quorum as i64);
        script.append(&mut keys);
        push_int(&mut script, total_count as i64);
        push_opcode(&mut script, OP_CHECKMULTISIG);
        proof {
            assert(self@.public_keys.take(total_count as int) =~= self@.public_keys);
            assert(script@ =~= script_bytes(self@));
            if total_count <= 127 {
                lemma_parse_of_built_script(self@);
            }
        }
        Ok(RedeemScript(script))
    }
}

impl Default for RedeemScriptBuilder {
    fn default() -> (r: RedeemScriptBuilder)
        ensures
            r@ == (ContentView { public_keys: Seq::empty(), quorum: 0 }),
    {
        RedeemScriptBuilder::new()
    }
}

} // verus!
