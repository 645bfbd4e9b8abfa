use vstd::prelude::*;
use vstd::string::StringSliceAdditionalSpecFns;

verus! {

/// The byte sequence of the `.jpg` file extension.
pub open spec fn spec_jpg_suffix() -> Seq<u8> {
    seq![46u8, 106u8, 112u8, 103u8]
}

/// The byte sequence of the `.png` file extension.
pub open spec fn spec_png_suffix() -> Seq<u8> {
    seq![46u8, 112u8, 110u8, 103u8]
}

/// Whether `b` ends with `suffix`.
pub open spec fn spec_ends_with(b: Seq<u8>, suffix: Seq<u8>) -> bool {
    b.len() >= suffix.len() && b.subrange(b.len() - suffix.len(), b.len() as int) == suffix
}

/// Whether a file name denotes a loadable image: a non-empty stem followed
/// by the `.jpg` or `.png` extension.
pub fn check_if_image(name: &str) -> (r: bool)
    ensures
        r == (name.spec_bytes().len() > 4 && (spec_ends_with(name.spec_bytes(), spec_jpg_suffix())
            || spec_ends_with(name.spec_bytes(), spec_png_suffix()))),
{
    let bytes = name.as_bytes();
    let n = bytes.len();
    if n <= 4 {
        return false;
    }
    let d = bytes[n - 4];
    let e1 = bytes[n - 3];
    let e2 = bytes[n - 2];
    let e3 = bytes[n - 1];
    let jpg = d == 46 && e1 == 106 && e2 == 112 && e3 == 103;
    let png = d == 46 && e1 == 112 && e2 == 110 && e3 == 103;
    proof {
        let b = name.spec_bytes();
        let tail = b.subrange(b.len() - 4, b.len() as int);
        assert(tail.len() == 4);
        assert(tail[0] == b[b.len() - 4]);
        assert(tail[1] == b[b.len() - 3]);
        assert(tail[2] == b[b.len() - 2]);
        assert(tail[3] == b[b.len() - 1]);
        if jpg {
            assert(tail =~= spec_jpg_suffix());
        }
        if png {
            assert(tail =~= spec_png_suffix());
        }
        if !jpg && !png {
            if tail == spec_jpg_suffix() {
                assert(jpg);
            }
            if tail == spec_png_suffix() {
                assert(png);
            }
        }
    }
    jpg || png
}

/// Cycles through the files of a directory; the caller lists and filters the
/// directory's files and hands their count in, and the carousel decides
/// which of them is next.
#[derive(Debug, Default)]
pub struct Carousel {
    pub dir: String,
    pub curr: usize,
}

impl Carousel {
    /// A carousel over `dir`, starting at the first file.
    pub fn new(dir: String) -> (c: Carousel)
        ensures
            c.dir@ == dir@,
            c.curr == 0,
    {
        Carousel { dir, curr: 0 }
    }

    /// Points the carousel at another directory; the position is kept.
    pub fn set_dir(&mut self, dir: String)
        ensures
            final(self).dir@ == dir@,
            final(self).curr == old(self).curr,
    {
        self.dir = dir;
    }

    /// Moves `offset` files forward (or backward, when negative) through a
    /// sorted listing of `file_count` files and returns the new position:
    /// the current position plus the offset, wrapped around the listing in
    /// both directions.
    pub fn select_next(&mut self, offset: i64, file_count: usize) -> (r: Option<usize>)
        ensures
            file_count == 0 ==> r is None && *final(self) == *old(self),
            file_count > 0 ==> r == Some(final(self).curr) && final(self).dir@ == old(self).dir@
                && final(self).curr == (old(self).curr + offset) % (file_count as int),
    {
        if file_count == 0 {
            return None;
        }
        let n = file_count;
        let a = self.curr % n;
        let b: usize = if offset >= 0 {
            (offset as u64 % n as u64) as usize
        } else {
            let k = ((-(offset + 1)) as u64 + 1);
            let km = (k % n as u64) as usize;
            if km == 0 {
                0
            } else {
                n - km
            }
        };
        let next = if b >= n - a {
            b - (n - a)
        } else {
            a + b
        };
        proof {
            let ci = old(self).curr as int;
            let ni = n as int;
            vstd::arithmetic::div_mod::lemma_add_mod_noop(ci, offset as int, ni);
            vstd::arithmetic::div_mod::lemma_mod_bound(ci, ni);
            vstd::arithmetic::div_mod::lemma_mod_bound(offset as int, ni);
            if offset >= 0 {
                assert(b == (offset as int) % ni);
            } else {
                let k = (-(offset as int)) as int;
                vstd::arithmetic::div_mod::lemma_fundamental_div_mod(k, ni);
                vstd::arithmetic::div_mod::lemma_mod_bound(k, ni);
                assert(ni * (-(k / ni)) == -(ni * (k / ni))) by (nonlinear_arith);
                assert(ni * (-(k / ni) - 1) == -(ni * (k / ni)) - ni) by (nonlinear_arith);
                assert(offset as int == ni * (-(k / ni)) - (k % ni));
                if k % ni == 0 {
                    vstd::arithmetic::div_mod::lemma_mod_multiples_vanish(-(k / ni), 0, ni);
                    assert(b == (offset as int) % ni);
                } else {
                    assert(offset as int == ni * (-(k / ni) - 1) + (ni - k % ni));
                    vstd::arithmetic::div_mod::lemma_mod_multiples_vanish(
                        -(k / ni) - 1,
                        ni - k % ni,
                        ni,
                    );
                    vstd::arithmetic::div_mod::lemma_small_mod((ni - k % ni) as nat, ni as nat);
                    assert(b == (offset as int) % ni);
                }
            }
            assert(a == ci % ni);
            assert(a + b < 2 * ni);
            if a + b >= ni {
                vstd::arithmetic::div_mod::lemma_mod_sub_multiples_vanish(a + b, ni);
                vstd::arithmetic::div_mod::lemma_small_mod((a + b - ni) as nat, ni as nat);
                assert(next == (a + b) % ni);
            } else {
                vstd::arithmetic::div_mod::lemma_small_mod((a + b) as nat, ni as nat);
                assert(next == (a + b) % ni);
            }
            vstd::arithmetic::div_mod::lemma_add_mod_noop(ci, offset as int, ni);
            assert((a + b) % ni == (ci + offset) % ni) by {
                assert(a == ci % ni && b == (offset as int) % ni);
            }
        }
        self.curr = next;
        Some(next)
    }
}

} // verus!
