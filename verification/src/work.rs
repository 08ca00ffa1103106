use vstd::prelude::*;
use vstd::string::*;
use vstd::utf8::*;

verus! {

/// The number of times `b` occurs in `s`.
pub open spec fn count_byte(s: Seq<u8>, b: u8) -> nat
    decreases s.len(),
{
    if s.len() == 0 {
        0
    } else {
        count_byte(s.drop_last(), b) + if s.last() == b { 1nat } else { 0nat }
    }
}

/// The byte of the dot character, `.`.
pub open spec fn dot() -> u8 {
    46u8
}

/// The number of dots in a work message, which is the number of seconds its
/// processing takes.
pub fn point_count(body: &[u8]) -> (r: usize)
    ensures
        r == count_byte(body@, dot()),
{
    let mut count: usize = 0;
    let mut i: usize = 0;
    while i < body.len()
        invariant
            i <= body@.len(),
            count == count_byte(body@.subrange(0, i as int), dot()),
            count <= i,
        decreases body@.len() - i,
    {
        assert(body@.subrange(0, i + 1).drop_last() =~= body@.subrange(0, i as int));
        if body[i] == 46u8 {
            count = count + 1;
        }
        i = i + 1;
    }
    assert(body@.subrange(0, body@.len() as int) =~= body@);
    count
}

/// The text `Hello msg`, with which every work message begins.
pub open spec fn work_prefix() -> Seq<char> {
    seq!['H', 'e', 'l', 'l', 'o', ' ', 'm', 's', 'g']
}

/// The text of the work message for `n` seconds of processing: `Hello msg`
/// followed by `n` dots.
pub open spec fn work_text(n: nat) -> Seq<char> {
    work_prefix() + Seq::new(n, |i: int| '.')
}

/// The work message for `point_count` seconds of processing.
pub fn work_message(point_count: usize) -> (r: String)
    ensures
        r@ == work_text(point_count as nat),
{
    let prefix = "Hello msg";
    let dot = ".";
    proof {
        reveal_strlit("Hello msg");
        reveal_strlit(".");
    }
    let mut msg = String::from_str(prefix);
    assert(msg@ =~= work_text(0));
    let mut i: usize = 0;
    while i < point_count
        invariant
            i <= point_count,
            msg@ == work_text(i as nat),
            dot@ == seq!['.'],
        decreases point_count - i,
    {
        msg.append(dot);
        i = i + 1;
        assert(msg@ =~= work_text(i as nat));
    }
    msg
}

/// Counting is additive over concatenation.
pub proof fn lemma_count_concat(a: Seq<u8>, b: Seq<u8>, x: u8)
    ensures
        count_byte(a + b, x) == count_byte(a, x) + count_byte(b, x),
    decreases b.len(),
{
    if b.len() == 0 {
        assert(a + b =~= a);
    } else {
        assert((a + b).drop_last() =~= a + b.drop_last());
        lemma_count_concat(a, b.drop_last(), x);
    }
}

/// A sequence all of whose bytes are `x` counts its length; one with none counts zero.
pub proof fn lemma_count_uniform(s: Seq<u8>, x: u8)
    ensures
        (forall|i: int| 0 <= i < s.len() ==> s[i] == x) ==> count_byte(s, x) == s.len(),
        (forall|i: int| 0 <= i < s.len() ==> s[i] != x) ==> count_byte(s, x) == 0,
    decreases s.len(),
{
    if s.len() > 0 {
        lemma_count_uniform(s.drop_last(), x);
        if forall|i: int| 0 <= i < s.len() ==> s[i] == x {
            assert(forall|i: int| 0 <= i < s.drop_last().len() ==> s.drop_last()[i] == x);
        }
        if forall|i: int| 0 <= i < s.len() ==> s[i] != x {
            assert(forall|i: int| 0 <= i < s.drop_last().len() ==> s.drop_last()[i] != x);
        }
    }
}

/// The dot count of a body is the number of its bytes equal to `b'.'`, that is, the
/// length of the body filtered down to its dots.
pub proof fn lemma_count_is_dots(s: Seq<u8>)
    ensures
        dot() == ('.' as u32) as u8,
        count_byte(s, dot()) == s.filter(|x: u8| x == 46u8).len(),
    decreases s.len(),
{
    if s.len() > 0 {
        lemma_count_is_dots(s.drop_last());
        s.drop_last().lemma_filter_push(s.last(), |x: u8| x == 46u8);
        assert(s.drop_last().push(s.last()) =~= s);
    } else {
        assert(s.filter(|x: u8| x == 46u8) =~= Seq::<u8>::empty());
    }
}

/// The consumer of a work message built for `n` seconds of processing counts
/// exactly `n` dots in its bytes.
pub proof fn lemma_work_round_trip(n: nat)
    ensures
        count_byte(encode_utf8(work_text(n)), dot()) == n,
{
    let prefix = work_prefix();
    let dots = Seq::new(n, |i: int| '.');
    let text = work_text(n);
    assert(is_ascii_chars(text));
    is_ascii_chars_encode_utf8(text);
    let bytes = encode_utf8(text);
    let pb = bytes.subrange(0, 9);
    let db = bytes.subrange(9, bytes.len() as int);
    assert(bytes =~= pb + db);
    assert forall|i: int| 0 <= i < pb.len() implies pb[i] != dot() by {
        assert(pb[i] == text[i] as u8);
    }
    assert forall|i: int| 0 <= i < db.len() implies db[i] == dot() by {
        assert(db[i] == text[i + 9] as u8);
    }
    lemma_count_uniform(pb, dot());
    lemma_count_uniform(db, dot());
    lemma_count_concat(pb, db, dot());
}

} // verus!
