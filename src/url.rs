use vstd::prelude::*;
use vstd::utf8::encode_utf8;

verus! {

/// Bytes that stand for themselves in a query component: letters, digits and `-._~`.
pub open spec fn is_unreserved(b: u8) -> bool {
    (48 <= b <= 57) || (65 <= b <= 90) || (97 <= b <= 122) || b == 45 || b == 46 || b == 95
        || b == 126
}

/// The ASCII byte of an upper-case hexadecimal digit.
pub open spec fn hex_digit(d: u8) -> u8
    recommends
        d < 16,
{
    if d < 10 {
        (48 + d) as u8
    } else {
        (55 + d) as u8
    }
}

/// The escaped form of one byte: itself when unreserved, else `%` and two hex digits.
pub open spec fn escape_byte(b: u8) -> Seq<u8> {
    if is_unreserved(b) {
        seq![b]
    } else {
        seq![37u8, hex_digit(b / 16), hex_digit(b % 16)]
    }
}

/// The escaped forms of the bytes, in order.
pub open spec fn escape_bytes(bs: Seq<u8>) -> Seq<u8>
    decreases bs.len(),
{
    if bs.len() == 0 {
        Seq::empty()
    } else {
        escape_bytes(bs.drop_last()) + escape_byte(bs.last())
    }
}

/// ASCII bytes read as characters.
pub open spec fn ascii_text(bs: Seq<u8>) -> Seq<char> {
    bs.map_values(|b: u8| b as char)
}

/// The percent-escaped form of a text: its UTF-8 bytes, each escaped.
pub open spec fn escape(s: Seq<char>) -> Seq<char> {
    ascii_text(escape_bytes(encode_utf8(s)))
}

/// Appends the escaped form of one byte.
fn escape_one(b: u8, out: &mut Vec<u8>)
    ensures
        final(out)@ == old(out)@ + escape_byte(b),
{
    let unreserved = (48 <= b && b <= 57) || (65 <= b && b <= 90) || (97 <= b && b <= 122) || b
        == 45 || b == 46 || b == 95 || b == 126;
    if unreserved {
        out.push(b);
    } else {
        let hi: u8 = b / 16;
        let lo: u8 = b % 16;
        out.push(37);
        out.push(if hi < 10 { 48 + hi } else { 55 + hi });
        out.push(if lo < 10 { 48 + lo } else { 55 + lo });
    }
    assert(out@ =~= old(out)@ + escape_byte(b));
}

/// Every byte is below 128.
pub open spec fn is_ascii_bytes(bs: Seq<u8>) -> bool {
    forall|i: int| 0 <= i < bs.len() ==> #[trigger] bs[i] < 128
}

/// Relies on `String::from_utf8`: ASCII bytes are valid UTF-8, and each byte
/// becomes the character with the same code.
#[verifier::external_body]
fn ascii_string(bytes: Vec<u8>) -> (r: String)
    requires
        is_ascii_bytes(bytes@),
    ensures
        r@ == ascii_text(bytes@),
{
    match String::from_utf8(bytes) {
        Ok(s) => s,
        Err(_) => String::new(),
    }
}

/// Percent-escapes a text for use as a query key or value.
pub fn escape_text(s: &str) -> (r: String)
    ensures
        r@ == escape(s@),
{
    let bytes = s.as_bytes_vec();
    let mut out: Vec<u8> = Vec::new();
    let mut i: usize = 0;
    while i < bytes.len()
        invariant
            0 <= i <= bytes@.len(),
            bytes@ == encode_utf8(s@),
            out@ == escape_bytes(bytes@.take(i as int)),
            is_ascii_bytes(out@),
        decreases bytes@.len() - i,
    {
        let ghost before = out@;
        escape_one(bytes[i], &mut out);
        assert(bytes@.take(i + 1).drop_last() =~= bytes@.take(i as int));
        assert(is_ascii_bytes(out@)) by {
            assert forall|j: int| 0 <= j < out@.len() implies #[trigger] out@[j] < 128 by {
                if j >= before.len() {
                    assert(out@[j] == escape_byte(bytes@[i as int])[j - before.len()]);
                }
            }
        }
        i = i + 1;
    }
    assert(bytes@.take(bytes@.len() as int) =~= bytes@);
    ascii_string(out)
}

/// A parameter list as pairs of texts.
pub open spec fn pairs_view(ps: Seq<(&str, String)>) -> Seq<(Seq<char>, Seq<char>)> {
    ps.map_values(|p: (&str, String)| (p.0@, p.1@))
}

/// One `key=value` item of a query string.
pub open spec fn pair_text(p: (Seq<char>, Seq<char>)) -> Seq<char> {
    escape(p.0) + seq!['='] + escape(p.1)
}

/// The query string: the items in the order given, joined by `&`.
pub open spec fn query(ps: Seq<(Seq<char>, Seq<char>)>) -> Seq<char>
    decreases ps.len(),
{
    if ps.len() == 0 {
        Seq::empty()
    } else if ps.len() == 1 {
        pair_text(ps[0])
    } else {
        query(ps.drop_last()) + seq!['&'] + pair_text(ps.last())
    }
}

/// The request text `{root}/{endpoint}?{query}`.
pub open spec fn render(root: Seq<char>, endpoint: Seq<char>, ps: Seq<(Seq<char>, Seq<char>)>) -> Seq<
    char,
> {
    root + seq!['/'] + endpoint + seq!['?'] + query(ps)
}

/// Renders request texts below a fixed root.
#[derive(Debug, Clone)]
pub struct UrlBuilder {
    pub root: String,
}

impl UrlBuilder {
    pub fn new(root: &str) -> (r: UrlBuilder)
        ensures
            r.root@ == root@,
    {
        UrlBuilder { root: String::from_str(root) }
    }

    /// Renders `{root}/{endpoint}?{k1}={v1}&...`, keys and values percent-escaped.
    pub fn url(&self, endpoint: &str, params: &Vec<(&str, String)>) -> (r: String)
        ensures
            r@ == render(self.root@, endpoint@, pairs_view(params@)),
    {
        let ghost ps = pairs_view(params@);
        let mut s = self.root.clone();
        s.append("/");
        s.append(endpoint);
        s.append("?");
        proof {
            reveal_strlit("/");
            reveal_strlit("?");
        }
        let mut i: usize = 0;
        while i < params.len()
            invariant
                0 <= i <= params@.len(),
                ps == pairs_view(params@),
                s@ == self.root@ + seq!['/'] + endpoint@ + seq!['?'] + query(ps.take(i as int)),
            decreases params@.len() - i,
        {
            let ghost prefix = s@;
            proof {
                reveal_strlit("&");
                reveal_strlit("=");
            }
            if i > 0 {
                s.append("&");
            }
            let key = escape_text(params[i].0);
            let value = escape_text(params[i].1.as_str());
            s.append(key.as_str());
            s.append("=");
            s.append(value.as_str());
            let ghost q = ps.take(i + 1);
            assert(q.drop_last() =~= ps.take(i as int));
            assert(q.last() == ps[i as int]);
            assert(ps[i as int] == (params@[i as int].0@, params@[i as int].1@));
            if i == 0 {
                assert(s@ =~= prefix + pair_text(q.last()));
            } else {
                assert(s@ =~= prefix + seq!['&'] + pair_text(q.last()));
            }
            i = i + 1;
        }
        assert(ps.take(params@.len() as int) =~= ps);
        s
    }
}

/// Rendering depends on nothing but the root, the endpoint and the texts of
/// the parameters, in their order: two calls on equal inputs give one text.
pub proof fn lemma_render_deterministic(
    root1: Seq<char>,
    root2: Seq<char>,
    endpoint1: Seq<char>,
    endpoint2: Seq<char>,
    params1: Seq<(&str, String)>,
    params2: Seq<(&str, String)>,
)
    requires
        root1 == root2,
        endpoint1 == endpoint2,
        pairs_view(params1) == pairs_view(params2),
    ensures
        render(root1, endpoint1, pairs_view(params1)) == render(root2, endpoint2, pairs_view(params2)),
{
}

} // verus!
