//! User-namespace probe support.
//!
//! A child forked with `CLONE_NEWUSER` must fill its own uid and gid maps
//! before it can test nested namespaces, and in that child nothing may
//! allocate.  The map lines are therefore rendered into a caller-provided
//! buffer; this module proves the rendering correct.  The errno that the
//! probe observes is judged against the set of values the kernel is known
//! to return for refused user namespaces.

use vstd::prelude::*;

verus! {

/// The decimal ASCII rendering of `n`, most significant digit first.
pub open spec fn spec_dec_bytes(n: nat) -> Seq<u8>
    decreases n,
{
    if n < 10 {
        seq![(0x30 + n) as u8]
    } else {
        spec_dec_bytes(n / 10) + seq![(0x30 + n % 10) as u8]
    }
}

/// The digits of `n`, least significant first; empty for zero.
pub open spec fn spec_rev_digits(n: nat) -> Seq<u8>
    decreases n,
{
    if n == 0 {
        seq![]
    } else {
        seq![(0x30 + n % 10) as u8] + spec_rev_digits(n / 10)
    }
}

/// The reversed digit list renders the same number.
proof fn lemma_rev_digits_dec(n: nat)
    requires
        n > 0,
    ensures
        spec_rev_digits(n).len() == spec_dec_bytes(n).len(),
        forall|i: int|
            0 <= i < spec_dec_bytes(n).len() ==> #[trigger] spec_dec_bytes(n)[i]
                == spec_rev_digits(n)[spec_dec_bytes(n).len() - 1 - i],
    decreases n,
{
    if n < 10 {
        assert(spec_rev_digits(n) =~= seq![(0x30 + n % 10) as u8] + spec_rev_digits(0));
    } else {
        lemma_rev_digits_dec(n / 10);
        let len = spec_dec_bytes(n).len();
        assert forall|i: int| 0 <= i < len implies #[trigger] spec_dec_bytes(n)[i]
            == spec_rev_digits(n)[len - 1 - i] by {
            if i < len - 1 {
                assert(spec_dec_bytes(n)[i] == spec_dec_bytes(n / 10)[i]);
                assert(spec_rev_digits(n)[len - 1 - i] == spec_rev_digits(n / 10)[len - 2 - i]);
            }
        }
    }
}

/// Write `n` in decimal ASCII at the start of `buf`; the rest of the
/// buffer is untouched.  Returns the number of bytes written.
pub fn write_u32_to_buf(buf: &mut Vec<u8>, n: u32) -> (len: usize)
    requires
        old(buf)@.len() >= 10,
    ensures
        len == spec_dec_bytes(n as nat).len(),
        final(buf)@.len() == old(buf)@.len(),
        final(buf)@.subrange(0, len as int) == spec_dec_bytes(n as nat),
        final(buf)@.skip(len as int) == old(buf)@.skip(len as int),
{
    if n == 0 {
        buf[0] = 0x30;
        proof {
            assert(buf@.subrange(0, 1) =~= spec_dec_bytes(0));
            assert(buf@.skip(1) =~= old(buf)@.skip(1));
        }
        return 1;
    }
    let mut temp: Vec<u8> = Vec::new();
    let mut m: u32 = n;
    proof {
        assert(temp@ + spec_rev_digits(n as nat) =~= spec_rev_digits(n as nat));
    }
    while m > 0
        invariant
            temp@ + spec_rev_digits(m as nat) == spec_rev_digits(n as nat),
            temp@.len() <= 10,
            m <= n,
        decreases m,
    {
        let ghost before = temp@;
        temp.push(0x30 + (m % 10) as u8);
        proof {
            assert(temp@ + spec_rev_digits((m / 10) as nat) =~= before + spec_rev_digits(
                m as nat,
            ));
            lemma_rev_digits_len_u32(n as nat);
            assert(temp@.len() <= spec_rev_digits(n as nat).len());
        }
        m = m / 10;
    }
    let len = temp.len();
    proof {
        lemma_rev_digits_dec(n as nat);
        assert(temp@ =~= spec_rev_digits(n as nat));
    }
    let mut i: usize = 0;
    while i < len
        invariant
            i <= len,
            len == temp@.len(),
            len == spec_dec_bytes(n as nat).len(),
            temp@ == spec_rev_digits(n as nat),
            buf@.len() == old(buf)@.len() >= 10,
            len <= 10,
            forall|j: int| 0 <= j < i ==> buf@[j] == spec_dec_bytes(n as nat)[j],
            forall|j: int| i <= j < buf@.len() ==> buf@[j] == old(buf)@[j],
        decreases len - i,
    {
        buf[i] = temp[len - 1 - i];
        proof {
            lemma_rev_digits_dec(n as nat);
        }
        i += 1;
    }
    proof {
        assert(buf@.subrange(0, len as int) =~= spec_dec_bytes(n as nat));
        assert(buf@.skip(len as int) =~= old(buf)@.skip(len as int));
    }
    len
}

/// Powers of ten.
pub open spec fn spec_pow10(k: nat) -> nat
    decreases k,
{
    if k == 0 {
        1
    } else {
        10 * spec_pow10((k - 1) as nat)
    }
}

proof fn lemma_pow10_pos(k: nat)
    ensures
        spec_pow10(k) >= 1,
    decreases k,
{
    if k > 0 {
        lemma_pow10_pos((k - 1) as nat);
    }
}

/// A number below the `k`-th power of ten has at most `k` digits.
proof fn lemma_rev_digits_len_bound(m: nat, k: nat)
    requires
        m < spec_pow10(k),
    ensures
        spec_rev_digits(m).len() <= k,
    decreases m,
{
    if m > 0 {
        assert(k >= 1) by {
            if k == 0 {
                assert(spec_pow10(0) == 1);
            }
        }
        assert(spec_pow10(k) == 10 * spec_pow10((k - 1) as nat));
        lemma_pow10_pos((k - 1) as nat);
        assert(m / 10 < spec_pow10((k - 1) as nat)) by (nonlinear_arith)
            requires
                m < 10 * spec_pow10((k - 1) as nat),
                spec_pow10((k - 1) as nat) >= 1,
        ;
        lemma_rev_digits_len_bound(m / 10, (k - 1) as nat);
    }
}

/// Every `u32` renders in at most ten digits.
proof fn lemma_rev_digits_len_u32(m: nat)
    requires
        m < 0x100000000,
    ensures
        spec_rev_digits(m).len() <= 10,
{
    assert(spec_pow10(0) == 1);
    assert(spec_pow10(1) == 10);
    assert(spec_pow10(2) == 100);
    assert(spec_pow10(3) == 1000);
    assert(spec_pow10(4) == 10000);
    assert(spec_pow10(5) == 100000);
    assert(spec_pow10(6) == 1000000);
    assert(spec_pow10(7) == 10000000);
    assert(spec_pow10(8) == 100000000);
    assert(spec_pow10(9) == 1000000000);
    assert(spec_pow10(10) == 10000000000);
    lemma_rev_digits_len_bound(m, 10);
}

/// The digit count of the two renderings agrees, and is at least one.
proof fn lemma_dec_bytes_len(n: nat)
    ensures
        spec_dec_bytes(n).len() >= 1,
        n > 0 ==> spec_rev_digits(n).len() == spec_dec_bytes(n).len(),
    decreases n,
{
    if n >= 10 {
        lemma_dec_bytes_len(n / 10);
    } else if n > 0 {
        assert(spec_rev_digits(n) =~= seq![(0x30 + n % 10) as u8] + spec_rev_digits(0));
    }
}

/// One uid or gid map line: `inside outside 1\n`, all in decimal ASCII.
pub open spec fn spec_id_map_line(inside: nat, outside: nat) -> Seq<u8> {
    spec_dec_bytes(inside) + seq![0x20u8] + spec_dec_bytes(outside) + seq![
        0x20u8,
        0x31u8,
        0x0au8,
    ]
}

/// Render a uid or gid map entry (`inside outside 1\n`) at the start of
/// `buf`.  Returns the number of bytes written.
pub fn format_id_map(buf: &mut Vec<u8>, inside_id: u32, outside_id: u32) -> (len: usize)
    requires
        old(buf)@.len() >= 32,
    ensures
        len == spec_id_map_line(inside_id as nat, outside_id as nat).len(),
        final(buf)@.len() == old(buf)@.len(),
        final(buf)@.subrange(0, len as int) == spec_id_map_line(
            inside_id as nat,
            outside_id as nat,
        ),
{
    proof {
        lemma_dec_bytes_len(inside_id as nat);
        lemma_dec_bytes_len(outside_id as nat);
        lemma_rev_digits_len_u32(inside_id as nat);
        lemma_rev_digits_len_u32(outside_id as nat);
    }
    let mut line: Vec<u8> = Vec::new();
    let mut scratch: Vec<u8> = Vec::new();
    let mut t: usize = 0;
    while t < 10
        invariant
            scratch@.len() == t,
            t <= 10,
        decreases 10 - t,
    {
        scratch.push(0);
        t += 1;
    }
    let a = write_u32_to_buf(&mut scratch, inside_id);
    let mut i: usize = 0;
    while i < a
        invariant
            i <= a,
            a <= scratch@.len(),
            scratch@.subrange(0, a as int) == spec_dec_bytes(inside_id as nat),
            line@ == spec_dec_bytes(inside_id as nat).take(i as int),
        decreases a - i,
    {
        line.push(scratch[i]);
        proof {
            assert(line@ =~= spec_dec_bytes(inside_id as nat).take(i + 1 as int));
        }
        i += 1;
    }
    proof {
        assert(spec_dec_bytes(inside_id as nat).take(a as int) =~= spec_dec_bytes(
            inside_id as nat,
        ));
    }
    line.push(0x20);
    let b = write_u32_to_buf(&mut scratch, outside_id);
    let ghost mid = line@;
    let mut j: usize = 0;
    while j < b
        invariant
            j <= b,
            b <= scratch@.len(),
            scratch@.subrange(0, b as int) == spec_dec_bytes(outside_id as nat),
            line@ == mid + spec_dec_bytes(outside_id as nat).take(j as int),
        decreases b - j,
    {
        line.push(scratch[j]);
        proof {
            assert(line@ =~= mid + spec_dec_bytes(outside_id as nat).take(j + 1 as int));
        }
        j += 1;
    }
    proof {
        assert(spec_dec_bytes(outside_id as nat).take(b as int) =~= spec_dec_bytes(
            outside_id as nat,
        ));
    }
    line.push(0x20);
    line.push(0x31);
    line.push(0x0a);
    proof {
        assert(line@ =~= spec_id_map_line(inside_id as nat, outside_id as nat));
    }
    let len = line.len();
    let mut k: usize = 0;
    while k < len
        invariant
            k <= len,
            len == line@.len(),
            line@ == spec_id_map_line(inside_id as nat, outside_id as nat),
            len <= 26,
            buf@.len() == old(buf)@.len() >= 32,
            forall|q: int| 0 <= q < k ==> buf@[q] == line@[q],
        decreases len - k,
    {
        buf[k] = line[k];
        k += 1;
    }
    proof {
        assert(buf@.subrange(0, len as int) =~= line@);
    }
    len
}

/// The errnos the kernel is known to return when `clone(CLONE_NEWUSER)`
/// is refused: operation not permitted, too many users, invalid argument,
/// and no space for another namespace.
pub open spec fn spec_expected_userns_errno(errno: int) -> bool {
    errno == 1 || errno == 87 || errno == 22 || errno == 28
}

/// Judge the errno of a failed `clone(CLONE_NEWUSER)` probe.  Returns the
/// errno unchanged; `expected` tells whether it belongs to the known set.
pub fn check_clone_new_user_errno(error: i32) -> (r: (i32, bool))
    ensures
        r.0 == error,
        r.1 == spec_expected_userns_errno(error as int),
{
    let expected = error == 1 || error == 87 || error == 22 || error == 28;
    (error, expected)
}

} // verus!
