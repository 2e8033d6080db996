//! Encoding and decoding of a whole sequence of fixed-size elements, as an
//! array buffer in guest memory holds them: element after element, little
//! endian, with nothing in between.

use vstd::prelude::*;

use crate::errors::AscError;
use crate::value::AscValue;
use vstd::arithmetic::mul::lemma_mul_inequality;

verus! {

/// The bytes a sequence of elements encodes to: each element's encoding,
/// concatenated in order.
pub open spec fn enc_elems<T: AscValue>(s: Seq<T>) -> Seq<u8>
    decreases s.len(),
{
    if s.len() == 0 {
        Seq::empty()
    } else {
        s[0].enc1() + enc_elems(s.skip(1))
    }
}

/// The exact result of decoding `n` elements from the front of `b`:
/// the first element error, if any, wins.
pub open spec fn dec_elems<T: AscValue>(b: Seq<u8>, n: nat) -> Result<Seq<T>, AscError>
    decreases n,
{
    if n == 0 {
        Ok(Seq::empty())
    } else {
        match T::dec1(b.take(T::elem_size() as int)) {
            Ok(v) => match dec_elems::<T>(b.skip(T::elem_size() as int), (n - 1) as nat) {
                Ok(rest) => Ok(seq![v] + rest),
                Err(e) => Err(e),
            },
            Err(e) => Err(e),
        }
    }
}

/// The encoding's length is the element count times the element size.
pub proof fn lemma_enc_elems_len<T: AscValue>(s: Seq<T>)
    ensures
        enc_elems(s).len() == s.len() * T::elem_size(),
    decreases s.len(),
{
    if s.len() == 0 {
    } else {
        s[0].lemma_enc1_len();
        lemma_enc_elems_len::<T>(s.skip(1));
        assert(s.skip(1).len() * T::elem_size() + T::elem_size() == s.len() * T::elem_size())
            by (nonlinear_arith)
            requires s.len() >= 1 && s.skip(1).len() == s.len() - 1;
    }
}

/// Appending one element appends its encoding.
pub proof fn lemma_enc_elems_push<T: AscValue>(s: Seq<T>, v: T)
    ensures
        enc_elems(s.push(v)) == enc_elems(s) + v.enc1(),
    decreases s.len(),
{
    if s.len() == 0 {
        assert(s.push(v)[0] == v);
        assert(s.push(v).skip(1) =~= Seq::<T>::empty());
        assert(enc_elems(s.push(v)) == v.enc1() + enc_elems(Seq::<T>::empty()));
        assert(enc_elems(s.push(v)) =~= enc_elems(s) + v.enc1());
    } else {
        assert(s.push(v)[0] == s[0]);
        assert(s.push(v).skip(1) =~= s.skip(1).push(v));
        lemma_enc_elems_push::<T>(s.skip(1), v);
        assert(enc_elems(s.push(v)) =~= enc_elems(s) + v.enc1());
    }
}

/// Round trip for a sequence: decoding its own encoding yields the
/// sequence back.
pub proof fn lemma_dec_enc_elems<T: AscValue>(s: Seq<T>)
    ensures
        dec_elems::<T>(enc_elems(s), s.len()) == Ok::<Seq<T>, AscError>(s),
    decreases s.len(),
{
    if s.len() == 0 {
        assert(enc_elems(s) =~= Seq::<u8>::empty());
        assert(s =~= Seq::<T>::empty());
    } else {
        let size = T::elem_size() as int;
        s[0].lemma_enc1_len();
        s[0].lemma_enc1_dec1();
        assert(enc_elems(s).take(size) =~= s[0].enc1());
        assert(enc_elems(s).skip(size) =~= enc_elems(s.skip(1)));
        lemma_dec_enc_elems::<T>(s.skip(1));
        assert(T::dec1(enc_elems(s).take(size)) == Ok::<T, AscError>(s[0]));
        assert(dec_elems::<T>(enc_elems(s).skip(size), (s.len() - 1) as nat)
            == Ok::<Seq<T>, AscError>(s.skip(1)));
        assert(dec_elems::<T>(enc_elems(s), s.len()) == Ok::<Seq<T>, AscError>(
            seq![s[0]] + s.skip(1),
        ));
        assert(seq![s[0]] + s.skip(1) =~= s);
    }
}

/// Encodes a slice of elements into one contiguous byte buffer.
pub fn encode_elems<T: AscValue>(content: &[T]) -> (r: Vec<u8>)
    requires
        content@.len() * T::elem_size() <= usize::MAX,
    ensures
        r@ == enc_elems(content@),
        r@.len() == content@.len() * T::elem_size(),
{
    let size = T::asc_size();
    let n = content.len();
    let mut out: Vec<u8> = Vec::new();
    let mut i: usize = 0;
    proof {
        assert(content@.take(0) =~= Seq::<T>::empty());
    }
    while i < n
        invariant
            i <= n,
            n == content@.len(),
            size == T::elem_size(),
            content@.len() * T::elem_size() <= usize::MAX,
            out@ == enc_elems(content@.take(i as int)),
            out@.len() == i * T::elem_size(),
        decreases n - i,
    {
        proof {
            lemma_mul_inequality(i as int + 1, n as int, size as int);
            assert((i + 1) * size == i * size + size) by (nonlinear_arith);
        }
        content[i].append_to(&mut out);
        proof {
            content@[i as int].lemma_enc1_len();
            assert(content@.take(i as int + 1) =~= content@.take(i as int).push(
                content@[i as int],
            ));
            lemma_enc_elems_push::<T>(content@.take(i as int), content@[i as int]);
        }
        i = i + 1;
    }
    proof {
        assert(content@.take(n as int) =~= content@);
    }
    out
}

/// Decodes `count` elements from a byte buffer that holds exactly their
/// bytes. The first malformed element's error is returned unchanged.
pub fn decode_elems<T: AscValue>(b: &[u8], count: usize) -> (r: Result<Vec<T>, AscError>)
    requires
        b@.len() == count * T::elem_size(),
    ensures
        (match r {
            Ok(v) => dec_elems::<T>(b@, count as nat) == Ok::<Seq<T>, AscError>(v@),
            Err(e) => dec_elems::<T>(b@, count as nat) == Err::<Seq<T>, AscError>(e),
        }),
{
    let size = T::asc_size();
    let blen = b.len();
    let mut acc: Vec<T> = Vec::new();
    let mut i: usize = 0;
    proof {
        assert(b@.skip(0) =~= b@);
        assert(acc@ + Seq::<T>::empty() =~= acc@);
    }
    while i < count
        invariant
            i <= count,
            size == T::elem_size(),
            b@.len() == count * T::elem_size(),
            b@.len() == blen,
            acc@.len() == i,
            dec_elems::<T>(b@, count as nat) == (
            match dec_elems::<T>(b@.skip(i as int * size as int), (count - i) as nat) {
                Ok(rest) => Ok::<Seq<T>, AscError>(acc@ + rest),
                Err(e) => Err::<Seq<T>, AscError>(e),
            }),
        decreases count - i,
    {
        proof {
            T::lemma_elem_size_pos();
            lemma_mul_inequality(i as int, i as int + 1, size as int);
            lemma_mul_inequality(i as int + 1, count as int, size as int);
            assert((i + 1) * size == i * size + size) by (nonlinear_arith);
        }
        let chunk = vstd::slice::slice_subrange(b, i * size, i * size + size);
        let ghost off = i as int * size as int;
        let ghost tail = b@.skip(off);
        proof {
            assert(tail.take(size as int) =~= b@.subrange(off, off + size as int));
            assert(tail.skip(size as int) =~= b@.skip(off + size as int));
        }
        match T::read_from(chunk) {
            Ok(v) => {
                let ghost old_acc = acc@;
                acc.push(v);
                proof {
                    let rec = dec_elems::<T>(b@.skip(off + size as int), (count - i - 1) as nat);
                    assert(dec_elems::<T>(tail, (count - i) as nat) == (
                    match rec {
                        Ok(rest) => Ok::<Seq<T>, AscError>(seq![v] + rest),
                        Err(e) => Err::<Seq<T>, AscError>(e),
                    }));
                    if rec is Ok {
                        let rest = rec->Ok_0;
                        assert(dec_elems::<T>(b@, count as nat) == Ok::<Seq<T>, AscError>(
                            old_acc + (seq![v] + rest),
                        ));
                        assert(old_acc + (seq![v] + rest) =~= acc@ + rest);
                    }
                }
            },
            Err(e) => {
                proof {
                    assert(dec_elems::<T>(tail, (count - i) as nat)
                        == Err::<Seq<T>, AscError>(e));
                }
                return Err(e);
            },
        }
        i = i + 1;
    }
    proof {
        assert(dec_elems::<T>(b@.skip(i as int * size as int), 0) == Ok::<Seq<T>, AscError>(
            Seq::<T>::empty(),
        ));
        assert(acc@ + Seq::<T>::empty() =~= acc@);
    }
    Ok(acc)
}

} // verus!
