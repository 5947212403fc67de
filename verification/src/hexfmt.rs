use vstd::prelude::*;

verus! {

/// The lower-case hexadecimal digit for a nibble.
pub open spec fn hex_digit(n: u8) -> char
    recommends
        n < 16,
{
    if n < 10 {
        (n + 0x30) as char
    } else {
        (n + 0x57) as char
    }
}

/// The lower-case hexadecimal encoding of a byte sequence: two digits per
/// byte, high nibble first.
pub open spec fn hex_chars(data: Seq<u8>) -> Seq<char>
    decreases data.len(),
{
    if data.len() == 0 {
        Seq::<char>::empty()
    } else {
        seq![hex_digit(data.first() / 16), hex_digit(data.first() % 16)] + hex_chars(
            data.drop_first(),
        )
    }
}

/// `hex_chars` with the `0x` marker in front, the shape in which key
/// material and contract addresses are persisted.
pub open spec fn hex_chars_0x(data: Seq<u8>) -> Seq<char> {
    seq!['0', 'x'] + hex_chars(data)
}

/// Relies on `String::push` of std: appends exactly the one character.
#[verifier::external_body]
pub(crate) fn push_char(s: &mut String, c: char)
    ensures
        final(s)@ == old(s)@ + seq![c],
{
    s.push(c);
}

fn hex_digit_char(n: u8) -> (c: char)
    requires
        n < 16,
    ensures
        c == hex_digit(n),
{
    if n < 10 {
        (n + 0x30) as char
    } else {
        (n + 0x57) as char
    }
}

proof fn lemma_hex_chars_snoc(data: Seq<u8>, i: int)
    requires
        0 <= i < data.len(),
    ensures
        hex_chars(data.take(i + 1)) == hex_chars(data.take(i)) + seq![
            hex_digit(data[i] / 16),
            hex_digit(data[i] % 16),
        ],
    decreases i,
{
    let a = data.take(i + 1);
    let b = data.take(i);
    if i == 0 {
        assert(a.first() == data[0]);
        assert(a.drop_first().len() == 0);
        assert(hex_chars(a.drop_first()) =~= Seq::<char>::empty());
        assert(b.len() == 0);
        assert(hex_chars(b) =~= Seq::<char>::empty());
        assert(hex_chars(a) =~= seq![hex_digit(data[0] / 16), hex_digit(data[0] % 16)]);
    } else {
        lemma_hex_chars_snoc(data.drop_first(), i - 1);
        assert(a.drop_first() =~= data.drop_first().take(i));
        assert(b.drop_first() =~= data.drop_first().take(i - 1));
        assert(hex_chars(a) =~= hex_chars(b) + seq![
            hex_digit(data[i] / 16),
            hex_digit(data[i] % 16),
        ]);
    }
}

/// Encode a byte slice as lower-case hexadecimal text.
pub fn to_hex(data: &[u8]) -> (r: String)
    ensures
        r@ == hex_chars(data@),
{
    let mut r = String::new();
    let n = data.len();
    let mut i: usize = 0;
    while i < n
        invariant
            n == data@.len(),
            i <= n,
            r@ == hex_chars(data@.take(i as int)),
        decreases n - i,
    {
        let b = data[i];
        push_char(&mut r, hex_digit_char(b / 16));
        push_char(&mut r, hex_digit_char(b % 16));
        proof {
            lemma_hex_chars_snoc(data@, i as int);
        }
        i = i + 1;
    }
    proof {
        assert(data@.take(n as int) =~= data@);
    }
    r
}

/// Whether a character is a hexadecimal digit, either case.
pub open spec fn is_hex_digit(c: char) -> bool {
    ||| 48 <= c as u32 && c as u32 <= 57
    ||| 97 <= c as u32 && c as u32 <= 102
    ||| 65 <= c as u32 && c as u32 <= 70
}

/// The value of a hexadecimal digit, either case.
pub open spec fn hex_digit_value(c: char) -> u8
    recommends
        is_hex_digit(c),
{
    if 48 <= c as u32 && c as u32 <= 57 {
        (c as u32 - 48) as u8
    } else if 97 <= c as u32 && c as u32 <= 102 {
        (c as u32 - 87) as u8
    } else {
        (c as u32 - 55) as u8
    }
}

/// Read one hexadecimal digit, rejecting every other character.
pub fn hex_digit_value_of(c: char) -> (r: Option<u8>)
    ensures
        r is Some <==> is_hex_digit(c),
        r matches Some(v) ==> v == hex_digit_value(c) && v < 16,
{
    let n = c as u32;
    if 48 <= n && n <= 57 {
        Some((n - 48) as u8)
    } else if 97 <= n && n <= 102 {
        Some((n - 87) as u8)
    } else if 65 <= n && n <= 70 {
        Some((n - 55) as u8)
    } else {
        None
    }
}

/// The digits of a piece of hexadecimal text: everything after the `0x`
/// marker if one stands in front, the whole text otherwise.
pub open spec fn hex_body(s: Seq<char>) -> Seq<char> {
    if s.len() >= 2 && s[0] == '0' && s[1] == 'x' {
        s.skip(2)
    } else {
        s
    }
}

/// Read a 20-byte account address out of its textual form: an optional
/// `0x` marker and then exactly forty hexadecimal digits, either case.
pub fn parse_eth_address(text: &str) -> (r: Option<[u8; 20]>)
    ensures
        r is Some <==> hex_body(text@).len() == 40 && (forall|k: int|
            0 <= k < 40 ==> is_hex_digit(#[trigger] hex_body(text@)[k])),
        r matches Some(b) ==> forall|k: int|
            0 <= k < 20 ==> #[trigger] b@[k] == 16 * hex_digit_value(hex_body(text@)[2 * k])
                + hex_digit_value(hex_body(text@)[2 * k + 1]),
{
    let n = text.unicode_len();
    let start: usize = if n >= 2 && text.get_char(0) == '0' && text.get_char(1) == 'x' {
        2
    } else {
        0
    };
    let ghost d = hex_body(text@);
    proof {
        assert(d =~= text@.skip(start as int));
    }
    if n - start != 40 {
        return None;
    }
    let mut out: [u8; 20] = [0;20];
    let mut i: usize = 0;
    while i < 20
        invariant
            n == text@.len(),
            start + 40 == n,
            start == 0 || start == 2,
            d == hex_body(text@),
            d =~= text@.skip(start as int),
            i <= 20,
            forall|k: int| 0 <= k < 2 * i ==> is_hex_digit(#[trigger] d[k]),
            forall|k: int|
                0 <= k < i ==> #[trigger] out@[k] == 16 * hex_digit_value(d[2 * k])
                    + hex_digit_value(d[2 * k + 1]),
        decreases 20 - i,
    {
        let hi = match hex_digit_value_of(text.get_char(start + 2 * i)) {
            Some(v) => v,
            None => {
                proof {
                    assert(!is_hex_digit(d[2 * i as int]));
                }
                return None;
            },
        };
        let lo = match hex_digit_value_of(text.get_char(start + 2 * i + 1)) {
            Some(v) => v,
            None => {
                proof {
                    assert(!is_hex_digit(d[2 * i as int + 1]));
                }
                return None;
            },
        };
        out.set(i, 16 * hi + lo);
        i = i + 1;
    }
    Some(out)
}

/// Left-pad text with zero digits to a fixed width: the shape of an
/// argument word in a contract call.
pub fn left_pad_zeros(text: &str, width: usize) -> (r: String)
    requires
        text@.len() <= width,
    ensures
        r@.len() == width,
        r@ == Seq::new((width - text@.len()) as nat, |k: int| '0') + text@,
{
    let mut r = String::new();
    let n = text.unicode_len();
    let mut i: usize = 0;
    while i < width - n
        invariant
            n == text@.len(),
            n <= width,
            i <= width - n,
            r@ =~= Seq::new(i as nat, |k: int| '0'),
        decreases width - n - i,
    {
        push_char(&mut r, '0');
        proof {
            assert(r@ =~= Seq::new((i + 1) as nat, |k: int| '0'));
        }
        i = i + 1;
    }
    r.append(text);
    proof {
        assert(r@ =~= Seq::new((width - text@.len()) as nat, |k: int| '0') + text@);
    }
    r
}

/// Encode a byte slice as `0x`-prefixed lower-case hexadecimal text.
pub fn to_hex_0x(data: &[u8]) -> (r: String)
    ensures
        r@ == hex_chars_0x(data@),
{
    let mut r = String::new();
    push_char(&mut r, '0');
    push_char(&mut r, 'x');
    let rest = to_hex(data);
    r.append(rest.as_str());
    proof {
        assert(r@ =~= hex_chars_0x(data@));
    }
    r
}

} // verus!
