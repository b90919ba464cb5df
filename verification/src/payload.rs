//! What is put on the wire: the one parameter object of a builder call.

use vstd::prelude::*;
use vstd::string::*;

verus! {

/// The sixteen lower-case hexadecimal digits, by value.
pub open spec fn hex_digits() -> Seq<char> {
    seq!['0', '1', '2', '3', '4', '5', '6', '7', '8', '9', 'a', 'b', 'c', 'd', 'e', 'f']
}

/// Two lower-case digits for each byte, the high half first.
pub open spec fn spec_hex(bytes: Seq<u8>) -> Seq<char> {
    Seq::new(
        2 * bytes.len(),
        |i: int|
            if i % 2 == 0 {
                hex_digits()[bytes[i / 2] as int / 16]
            } else {
                hex_digits()[bytes[i / 2] as int % 16]
            },
    )
}

/// The digits of the bytes behind the prefix `0x`.
pub open spec fn spec_hex_prefixed(bytes: Seq<u8>) -> Seq<char> {
    seq!['0', 'x'] + spec_hex(bytes)
}

/// The JSON text of the parameter object for a transaction: one member, `tx`,
/// whose value is the transaction in prefixed hexadecimal.
pub open spec fn spec_params(tx: Seq<u8>) -> Seq<char> {
    "{\"tx\":\""@ + spec_hex_prefixed(tx) + "\"}"@
}

/// Calls `alloy_primitives::hex::encode_prefixed`. Trusted: the text is `0x`
/// followed by two lower-case hexadecimal digits for each byte, in order.
#[verifier::external_body]
fn hex_prefixed(bytes: &[u8]) -> (text: String)
    ensures
        text@ == spec_hex_prefixed(bytes@),
{
    alloy_primitives::hex::encode_prefixed(bytes)
}

/// The parameter object for a transaction, as JSON text.
pub fn params_json(tx: &[u8]) -> (text: String)
    ensures
        text@ == spec_params(tx@),
{
    let mut text = "{\"tx\":\"".to_owned();
    let digits = hex_prefixed(tx);
    text.append(digits.as_str());
    text.append("\"}");
    text
}

/// The only thing a builder is sent: the raw signed transaction.
#[derive(Debug, Clone)]
pub struct TxRequest {
    pub tx: Vec<u8>,
}

impl TxRequest {
    /// The parameter object as JSON text.
    pub fn to_json(&self) -> (text: String)
        ensures
            text@ == spec_params(self.tx@),
    {
        params_json(self.tx.as_slice())
    }
}

/// Mathematical model of an [`RpcCall`]: the two texts it holds.
pub struct CallModel {
    pub method: Seq<char>,
    pub params: Seq<char>,
}

/// One call to issue: the method to name and the parameter object to send.
#[derive(Debug)]
pub struct RpcCall {
    pub method: String,
    pub params: String,
}

impl View for RpcCall {
    type V = CallModel;

    open spec fn view(&self) -> CallModel {
        CallModel { method: self.method@, params: self.params@ }
    }
}

/// The hexadecimal form has the prefix and two digits for each byte, and every
/// digit behind the prefix is one of the sixteen.
pub proof fn lemma_hex_shape(bytes: Seq<u8>)
    ensures
        spec_hex_prefixed(bytes).len() == 2 + 2 * bytes.len(),
        spec_hex_prefixed(bytes)[0] == '0',
        spec_hex_prefixed(bytes)[1] == 'x',
        forall|i: int|
            2 <= i < 2 + 2 * bytes.len() ==> hex_digits().contains(
                #[trigger] spec_hex_prefixed(bytes)[i],
            ),
{
    assert forall|i: int| 2 <= i < 2 + 2 * bytes.len() implies hex_digits().contains(
        #[trigger] spec_hex_prefixed(bytes)[i],
    ) by {
        let j = i - 2;
        let b = bytes[j / 2] as int;
        assert(spec_hex_prefixed(bytes)[i] == spec_hex(bytes)[j]);
        assert(0 <= b / 16 < 16 && 0 <= b % 16 < 16);
        if j % 2 == 0 {
            assert(hex_digits()[b / 16] == spec_hex(bytes)[j]);
        } else {
            assert(hex_digits()[b % 16] == spec_hex(bytes)[j]);
        }
    }
}

} // verus!
