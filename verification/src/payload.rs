//! The request body a builder receives: the transaction bytes in their
//! canonical hex-with-0x-prefix form, wrapped in the JSON-RPC 2.0 envelope
//! for the builder's method.

use vstd::prelude::*;
use vstd::string::StringExecFns;

verus! {

/// The lower-case hex character of one nibble.
pub open spec fn hex_digit(n: u8) -> char
    recommends
        n < 16,
{
    if n == 0 {
        '0'
    } else if n == 1 {
        '1'
    } else if n == 2 {
        '2'
    } else if n == 3 {
        '3'
    } else if n == 4 {
        '4'
    } else if n == 5 {
        '5'
    } else if n == 6 {
        '6'
    } else if n == 7 {
        '7'
    } else if n == 8 {
        '8'
    } else if n == 9 {
        '9'
    } else if n == 10 {
        'a'
    } else if n == 11 {
        'b'
    } else if n == 12 {
        'c'
    } else if n == 13 {
        'd'
    } else if n == 14 {
        'e'
    } else {
        'f'
    }
}

/// The two hex digits of one byte, high nibble first.
pub open spec fn hex_of_byte(b: u8) -> Seq<char> {
    seq![hex_digit(b / 16), hex_digit(b % 16)]
}

/// The hex digits of a byte string, in order.
pub open spec fn hex_chars(tx: Seq<u8>) -> Seq<char>
    decreases tx.len(),
{
    if tx.len() == 0 {
        Seq::empty()
    } else {
        hex_of_byte(tx[0]) + hex_chars(tx.drop_first())
    }
}

/// The canonical string form of the transaction bytes: 0x-prefixed hex.
pub open spec fn tx_param(tx: Seq<u8>) -> Seq<char> {
    "0x"@ + hex_chars(tx)
}

/// The JSON-RPC 2.0 request body for one builder: its method name and the
/// canonical form of the transaction.
pub open spec fn envelope(method: Seq<char>, tx: Seq<u8>) -> Seq<char> {
    "{\"jsonrpc\":\"2.0\",\"method\":\""@ + method + "\",\"params\":[{\"tx\":\""@ + tx_param(tx)
        + "\"}],\"id\":1}"@
}

pub proof fn lemma_hex_chars_append(a: Seq<u8>, b: Seq<u8>)
    ensures
        hex_chars(a + b) == hex_chars(a) + hex_chars(b),
    decreases a.len(),
{
    if a.len() == 0 {
        assert(a + b =~= b);
        assert(hex_chars(a) + hex_chars(b) =~= hex_chars(b));
    } else {
        lemma_hex_chars_append(a.drop_first(), b);
        assert((a + b).drop_first() =~= a.drop_first() + b);
        assert((a + b)[0] == a[0]);
        assert(hex_chars(a + b) =~= hex_chars(a) + hex_chars(b));
    }
}

fn hex_digit_str(n: u8) -> (r: &'static str)
    requires
        n < 16,
    ensures
        r@ == seq![hex_digit(n)],
{
    let r: &'static str = if n == 0 {
        "0"
    } else if n == 1 {
        "1"
    } else if n == 2 {
        "2"
    } else if n == 3 {
        "3"
    } else if n == 4 {
        "4"
    } else if n == 5 {
        "5"
    } else if n == 6 {
        "6"
    } else if n == 7 {
        "7"
    } else if n == 8 {
        "8"
    } else if n == 9 {
        "9"
    } else if n == 10 {
        "a"
    } else if n == 11 {
        "b"
    } else if n == 12 {
        "c"
    } else if n == 13 {
        "d"
    } else if n == 14 {
        "e"
    } else {
        "f"
    };
    proof {
        reveal_strlit("0");
        reveal_strlit("1");
        reveal_strlit("2");
        reveal_strlit("3");
        reveal_strlit("4");
        reveal_strlit("5");
        reveal_strlit("6");
        reveal_strlit("7");
        reveal_strlit("8");
        reveal_strlit("9");
        reveal_strlit("a");
        reveal_strlit("b");
        reveal_strlit("c");
        reveal_strlit("d");
        reveal_strlit("e");
        reveal_strlit("f");
        assert(r@ =~= seq![hex_digit(n)]);
    }
    r
}

fn push_hex_byte(s: &mut String, b: u8)
    ensures
        final(s)@ == old(s)@ + hex_of_byte(b),
{
    let hi = hex_digit_str(b / 16);
    let lo = hex_digit_str(b % 16);
    s.append(hi);
    s.append(lo);
    proof {
        assert(final(s)@ =~= old(s)@ + hex_of_byte(b));
    }
}

/// The canonical hex-with-0x-prefix encoding of the transaction bytes.
pub fn encode_tx_hex(tx: &Vec<u8>) -> (r: String)
    ensures
        r@ == tx_param(tx@),
{
    let mut s: String = "0x".to_owned();
    proof {
        assert(tx@.take(0) =~= Seq::<u8>::empty());
        assert(s@ =~= "0x"@ + hex_chars(tx@.take(0)));
    }
    let mut i: usize = 0;
    while i < tx.len()
        invariant
            i <= tx.len(),
            s@ == "0x"@ + hex_chars(tx@.take(i as int)),
        decreases tx.len() - i,
    {
        push_hex_byte(&mut s, tx[i]);
        proof {
            let prefix = tx@.take(i as int);
            let one = seq![tx@[i as int]];
            assert(prefix + one =~= tx@.take(i + 1 as int));
            lemma_hex_chars_append(prefix, one);
            assert(one.drop_first() =~= Seq::<u8>::empty());
            assert(hex_chars(Seq::<u8>::empty()) =~= Seq::<char>::empty());
            assert(hex_chars(one) =~= hex_of_byte(tx@[i as int]));
            assert(s@ =~= "0x"@ + hex_chars(tx@.take(i + 1 as int)));
        }
        i += 1;
    }
    proof {
        assert(tx@.take(tx.len() as int) =~= tx@);
    }
    s
}

/// The full JSON-RPC request body for one builder's method and one
/// transaction.
pub fn request_body(method: &str, tx: &Vec<u8>) -> (r: String)
    ensures
        r@ == envelope(method@, tx@),
{
    let mut s: String = "{\"jsonrpc\":\"2.0\",\"method\":\"".to_owned();
    s.append(method);
    s.append("\",\"params\":[{\"tx\":\"");
    let hex = encode_tx_hex(tx);
    s.append(hex.as_str());
    s.append("\"}],\"id\":1}");
    proof {
        assert(s@ =~= envelope(method@, tx@));
    }
    s
}

/// Law: the transaction segment of a request body is exactly the canonical
/// encoding of the transaction, whatever the builder's method name.
pub proof fn lemma_envelope_tx_segment(method: Seq<char>, tx: Seq<u8>)
    ensures
        ({
            let start = ("{\"jsonrpc\":\"2.0\",\"method\":\""@.len() + method.len()
                + "\",\"params\":[{\"tx\":\""@.len()) as int;
            envelope(method, tx).subrange(
                start,
                start + tx_param(tx).len() as int,
            ) == tx_param(tx)
        }),
{
    let start = ("{\"jsonrpc\":\"2.0\",\"method\":\""@.len() + method.len()
        + "\",\"params\":[{\"tx\":\""@.len()) as int;
    assert(envelope(method, tx).subrange(start, start + tx_param(tx).len() as int) =~= tx_param(
        tx,
    ));
}

/// Law: the same transaction bytes are delivered byte-identically to every
/// builder. Two request bodies built for the same transaction carry the same
/// transaction segment, even when the two builders' method names differ.
pub proof fn lemma_tx_delivered_identically(m1: Seq<char>, m2: Seq<char>, tx: Seq<u8>)
    ensures
        ({
            let p = "{\"jsonrpc\":\"2.0\",\"method\":\""@.len() as int;
            let q = "\",\"params\":[{\"tx\":\""@.len() as int;
            let n = tx_param(tx).len() as int;
            envelope(m1, tx).subrange(p + m1.len() + q, p + m1.len() + q + n) == envelope(
                m2,
                tx,
            ).subrange(p + m2.len() + q, p + m2.len() + q + n)
        }),
{
    lemma_envelope_tx_segment(m1, tx);
    lemma_envelope_tx_segment(m2, tx);
}

} // verus!
