//! Pure helpers: hex encoding of entropy into order ids, decimal
//! rendering of the advertised bounds, and the order validator.

use vstd::prelude::*;

use crate::msgs::{OptionsSupported, OrderParams};

verus! {

/// The hex character of a nibble.
pub open spec fn hex_digit(n: u8) -> char
    recommends
        n < 16,
{
    if n == 0 {
        '0'
    } else if n == 1 {
        '1'
    } else if n == 2 {
        '2'
    } else if n == 3 {
        '3'
    } else if n == 4 {
        '4'
    } else if n == 5 {
        '5'
    } else if n == 6 {
        '6'
    } else if n == 7 {
        '7'
    } else if n == 8 {
        '8'
    } else if n == 9 {
        '9'
    } else if n == 10 {
        'a'
    } else if n == 11 {
        'b'
    } else if n == 12 {
        'c'
    } else if n == 13 {
        'd'
    } else if n == 14 {
        'e'
    } else {
        'f'
    }
}

/// The hex encoding of a byte sequence, two characters per byte.
pub open spec fn hex_of(bytes: Seq<u8>) -> Seq<char>
    decreases bytes.len(),
{
    if bytes.len() == 0 {
        Seq::empty()
    } else {
        seq![hex_digit(bytes[0] / 16), hex_digit(bytes[0] % 16)] + hex_of(bytes.drop_first())
    }
}

/// The hex encoding is two characters per byte.
pub proof fn lemma_hex_of_len(bytes: Seq<u8>)
    ensures
        hex_of(bytes).len() == 2 * bytes.len(),
    decreases bytes.len(),
{
    if bytes.len() > 0 {
        lemma_hex_of_len(bytes.drop_first());
    }
}

/// Appending a byte appends its two hex characters.
pub proof fn lemma_hex_of_push(bytes: Seq<u8>, b: u8)
    ensures
        hex_of(bytes.push(b)) =~= hex_of(bytes) + seq![hex_digit(b / 16), hex_digit(b % 16)],
    decreases bytes.len(),
{
    if bytes.len() == 0 {
        assert(bytes.push(b).drop_first() =~= Seq::<u8>::empty());
        assert(hex_of(bytes.push(b)) =~= seq![hex_digit(b / 16), hex_digit(b % 16)] + hex_of(
            Seq::<u8>::empty(),
        ));
    } else {
        assert(bytes.push(b)[0] == bytes[0]);
        assert(bytes.push(b).drop_first() =~= bytes.drop_first().push(b));
        lemma_hex_of_push(bytes.drop_first(), b);
        assert(hex_of(bytes.push(b)) =~= seq![
            hex_digit(bytes[0] / 16),
            hex_digit(bytes[0] % 16),
        ] + (hex_of(bytes.drop_first()) + seq![hex_digit(b / 16), hex_digit(b % 16)]));
    }
}

/// Distinct byte sequences of one length have distinct hex encodings,
/// so order ids drawn from distinct entropy blocks never collide.
pub proof fn lemma_hex_of_injective(a: Seq<u8>, b: Seq<u8>)
    requires
        a.len() == b.len(),
        hex_of(a) == hex_of(b),
    ensures
        a =~= b,
    decreases a.len(),
{
    if a.len() > 0 {
        lemma_hex_of_len(a.drop_first());
        lemma_hex_of_len(b.drop_first());
        assert(hex_of(a)[0] == hex_digit(a[0] / 16) && hex_of(a)[1] == hex_digit(a[0] % 16));
        assert(hex_of(b)[0] == hex_digit(b[0] / 16) && hex_of(b)[1] == hex_digit(b[0] % 16));
        assert(a[0] / 16 == b[0] / 16 && a[0] % 16 == b[0] % 16);
        assert(a[0] == b[0]);
        assert(hex_of(a).skip(2) =~= hex_of(a.drop_first()));
        assert(hex_of(b).skip(2) =~= hex_of(b.drop_first()));
        lemma_hex_of_injective(a.drop_first(), b.drop_first());
        assert forall|i: int| 0 <= i < a.len() implies a[i] == b[i] by {
            if i > 0 {
                assert(a[i] == a.drop_first()[i - 1]);
                assert(b[i] == b.drop_first()[i - 1]);
            }
        }
    }
}

/// The one-character string of a nibble's hex character.
fn hex_digit_str(n: u8) -> (r: &'static str)
    requires
        n < 16,
    ensures
        r@ =~= seq![hex_digit(n)],
{
    proof {
        reveal_strlit("0");
        reveal_strlit("1");
        reveal_strlit("2");
        reveal_strlit("3");
        reveal_strlit("4");
        reveal_strlit("5");
        reveal_strlit("6");
        reveal_strlit("7");
        reveal_strlit("8");
        reveal_strlit("9");
        reveal_strlit("a");
        reveal_strlit("b");
        reveal_strlit("c");
        reveal_strlit("d");
        reveal_strlit("e");
        reveal_strlit("f");
    }
    if n == 0 {
        "0"
    } else if n == 1 {
        "1"
    } else if n == 2 {
        "2"
    } else if n == 3 {
        "3"
    } else if n == 4 {
        "4"
    } else if n == 5 {
        "5"
    } else if n == 6 {
        "6"
    } else if n == 7 {
        "7"
    } else if n == 8 {
        "8"
    } else if n == 9 {
        "9"
    } else if n == 10 {
        "a"
    } else if n == 11 {
        "b"
    } else if n == 12 {
        "c"
    } else if n == 13 {
        "d"
    } else if n == 14 {
        "e"
    } else {
        "f"
    }
}

/// Hex-encodes the first `n` bytes of `bytes`.
pub fn hex_str_prefix(bytes: &Vec<u8>, n: usize) -> (r: String)
    requires
        n <= bytes@.len(),
    ensures
        r@ == hex_of(bytes@.take(n as int)),
{
    let mut r = String::new();
    let mut i: usize = 0;
    while i < n
        invariant
            i <= n <= bytes@.len(),
            r@ == hex_of(bytes@.take(i as int)),
        decreases n - i,
    {
        let b = bytes[i];
        r.append(hex_digit_str(b / 16));
        r.append(hex_digit_str(b % 16));
        proof {
            assert(bytes@.take(i + 1) =~= bytes@.take(i as int).push(bytes@[i as int]));
            lemma_hex_of_push(bytes@.take(i as int), bytes@[i as int]);
        }
        i = i + 1;
    }
    r
}

/// The decimal rendering of a number, most significant digit first.
pub open spec fn dec_of(n: nat) -> Seq<char>
    decreases n,
{
    if n < 10 {
        seq![hex_digit(n as u8)]
    } else {
        dec_of(n / 10) + seq![hex_digit((n % 10) as u8)]
    }
}

/// Renders a number in decimal.
pub fn u64_to_dec(n: u64) -> (s: String)
    ensures
        s@ == dec_of(n as nat),
    decreases n,
{
    if n < 10 {
        let mut s = String::new();
        s.append(hex_digit_str(n as u8));
        s
    } else {
        let mut s = u64_to_dec(n / 10);
        s.append(hex_digit_str((n % 10) as u8));
        s
    }
}

/// Whether a requested order lies inside the advertised option ranges.
pub open spec fn spec_is_valid(order: OrderParams, options: OptionsSupported) -> bool {
    &&& options.min_initial_lsp_balance_sat <= order.lsp_balance_sat
    &&& order.lsp_balance_sat <= options.max_initial_lsp_balance_sat
    &&& options.min_initial_client_balance_sat <= order.client_balance_sat
    &&& order.client_balance_sat <= options.max_initial_client_balance_sat
    &&& order.channel_expiry_blocks <= options.max_channel_expiry_blocks
}

/// Compares a requested order against the advertised option ranges;
/// pure and deterministic. Any parameter outside its bounds makes the
/// order invalid.
pub fn is_valid(order: &OrderParams, options: &OptionsSupported) -> (r: bool)
    ensures
        r == spec_is_valid(*order, *options),
{
    options.min_initial_lsp_balance_sat <= order.lsp_balance_sat
        && order.lsp_balance_sat <= options.max_initial_lsp_balance_sat
        && options.min_initial_client_balance_sat <= order.client_balance_sat
        && order.client_balance_sat <= options.max_initial_client_balance_sat
        && order.channel_expiry_blocks <= options.max_channel_expiry_blocks
}

/// The diagnostic text describing the advertised option ranges.
pub open spec fn options_description(o: OptionsSupported) -> Seq<char> {
    "lsp_balance_sat between "@ + dec_of(o.min_initial_lsp_balance_sat as nat) + " and "@
        + dec_of(o.max_initial_lsp_balance_sat as nat) + ", client_balance_sat between "@ + dec_of(
        o.min_initial_client_balance_sat as nat,
    ) + " and "@ + dec_of(o.max_initial_client_balance_sat as nat)
        + ", channel_expiry_blocks up to "@ + dec_of(o.max_channel_expiry_blocks as nat)
}

/// Renders the advertised option ranges as diagnostic text.
pub fn describe_options(o: &OptionsSupported) -> (s: String)
    ensures
        s@ == options_description(*o),
{
    let mut s = String::from_str("lsp_balance_sat between ");
    s.append(u64_to_dec(o.min_initial_lsp_balance_sat).as_str());
    s.append(" and ");
    s.append(u64_to_dec(o.max_initial_lsp_balance_sat).as_str());
    s.append(", client_balance_sat between ");
    s.append(u64_to_dec(o.min_initial_client_balance_sat).as_str());
    s.append(" and ");
    s.append(u64_to_dec(o.max_initial_client_balance_sat).as_str());
    s.append(", channel_expiry_blocks up to ");
    s.append(u64_to_dec(o.max_channel_expiry_blocks as u64).as_str());
    assert(s@ =~= options_description(*o));
    s
}

} // verus!
