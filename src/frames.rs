//! The order in which an animation's frames are rendered and reported.
use vstd::prelude::*;

use vstd::arithmetic::power::pow;

use crate::scene::ExpressionContext;

verus! {

/// A progress report for one frame: its 1-based number and the frame count.
#[derive(Clone, Copy, Debug, PartialEq, Eq, Structural)]
pub struct FrameProgress {
    pub frame: u32,
    pub total: u32,
}

/// The contexts of all frames of a `total_frames`-frame animation, one per
/// frame index, in increasing order. Rendering them in turn yields exactly
/// `total_frames` images in frame order.
pub fn frame_contexts(total_frames: u32) -> (r: Vec<ExpressionContext>)
    ensures
        r@.len() == total_frames,
        forall|i: int|
            0 <= i < total_frames ==> #[trigger] r@[i] == (ExpressionContext {
                frame: i as u32,
                total_frames,
            }),
{
    let mut r: Vec<ExpressionContext> = Vec::new();
    let mut frame: u32 = 0;
    while frame < total_frames
        invariant
            frame <= total_frames,
            r@.len() == frame,
            forall|i: int|
                0 <= i < frame ==> #[trigger] r@[i] == (ExpressionContext {
                    frame: i as u32,
                    total_frames,
                }),
        decreases total_frames - frame,
    {
        r.push(ExpressionContext::new(frame, total_frames));
        frame = frame + 1;
    }
    r
}

/// The progress report of the frame that `ctx` describes.
pub fn progress_of(ctx: &ExpressionContext) -> (r: FrameProgress)
    requires
        ctx.frame < ctx.total_frames,
    ensures
        r.frame == ctx.frame + 1,
        r.total == ctx.total_frames,
{
    FrameProgress { frame: ctx.frame + 1, total: ctx.total_frames }
}

/// The number of decimal digits that frame numbers are padded to for `n`
/// frames: the least `k` with `10^k >= n`.
pub fn frame_number_width(n: u32) -> (r: usize)
    ensures
        pow(10, r as nat) >= n,
        r == 0 || pow(10, (r - 1) as nat) < n,
{
    let mut p: u64 = 1;
    let mut k: usize = 0;
    proof {
        vstd::arithmetic::power::lemma_pow0(10);
        assert(pow(10, 10) == 10_000_000_000) by {
            reveal_with_fuel(pow, 11);
        }
    }
    while p < n as u64
        invariant
            p == pow(10, k as nat),
            pow(10, 10) == 10_000_000_000,
            k <= 10,
            k == 0 || pow(10, (k - 1) as nat) < n,
        decreases 10 - k,
    {
        proof {
            vstd::arithmetic::power::lemma_pow_adds(10, k as nat, 1);
            vstd::arithmetic::power::lemma_pow1(10);
            assert(k < 10);
        }
        p = p * 10;
        k = k + 1;
    }
    k
}

pub open spec fn digit_char(d: nat) -> char {
    if d == 0 { '0' } else if d == 1 { '1' } else if d == 2 { '2' } else if d == 3 { '3' }
    else if d == 4 { '4' } else if d == 5 { '5' } else if d == 6 { '6' } else if d == 7 { '7' }
    else if d == 8 { '8' } else { '9' }
}

/// The decimal digits of `n`, most significant first, without leading zeros.
pub open spec fn decimal(n: nat) -> Seq<char>
    decreases n,
{
    if n < 10 {
        seq![digit_char(n)]
    } else {
        decimal(n / 10).push(digit_char(n % 10))
    }
}

/// `n` in decimal, left-padded with zeros to at least `width` digits.
pub open spec fn zero_padded(n: nat, width: nat) -> Seq<char> {
    let digits = decimal(n);
    let pad: nat = if width > digits.len() {
        (width - digits.len()) as nat
    } else {
        0
    };
    Seq::new(pad, |i: int| '0') + digits
}

fn digit_str(d: u32) -> (r: &'static str)
    requires
        d < 10,
    ensures
        r@ == seq![digit_char(d as nat)],
{
    match d {
        0 => {
            proof {
                reveal_strlit("0");
            }
            "0"
        },
        1 => {
            proof {
                reveal_strlit("1");
            }
            "1"
        },
        2 => {
            proof {
                reveal_strlit("2");
            }
            "2"
        },
        3 => {
            proof {
                reveal_strlit("3");
            }
            "3"
        },
        4 => {
            proof {
                reveal_strlit("4");
            }
            "4"
        },
        5 => {
            proof {
                reveal_strlit("5");
            }
            "5"
        },
        6 => {
            proof {
                reveal_strlit("6");
            }
            "6"
        },
        7 => {
            proof {
                reveal_strlit("7");
            }
            "7"
        },
        8 => {
            proof {
                reveal_strlit("8");
            }
            "8"
        },
        _ => {
            proof {
                reveal_strlit("9");
            }
            "9"
        },
    }
}

fn decimal_string(n: u32) -> (r: String)
    ensures
        r@ == decimal(n as nat),
    decreases n,
{
    if n < 10 {
        String::from_str(digit_str(n))
    } else {
        decimal_string(n / 10).concat(digit_str(n % 10))
    }
}

/// The file name of frame `index`: `frame_`, the index zero-padded to
/// `width` digits, `.png`.
pub fn frame_file_name(index: u32, width: usize) -> (r: String)
    ensures
        r@ == "frame_"@ + zero_padded(index as nat, width as nat) + ".png"@,
{
    let digits = decimal_string(index);
    let len = digits.as_str().unicode_len();
    let mut r = String::from_str("frame_");
    let ghost head = r@;
    let mut k: usize = len;
    while k < width
        invariant
            len <= k,
            k <= width || k == len,
            len == decimal(index as nat).len(),
            r@ == head + Seq::new((k - len) as nat, |i: int| '0'),
        decreases width - k,
    {
        proof {
            reveal_strlit("0");
        }
        r.append("0");
        assert(r@ =~= head + Seq::new((k + 1 - len) as nat, |i: int| '0'));
        k = k + 1;
    }
    let ghost pad: nat = if width > len {
        (width - len) as nat
    } else {
        0
    };
    assert(r@ =~= head + Seq::new(pad, |i: int| '0'));
    r = r.concat(digits.as_str()).concat(".png");
    r
}

} // verus!
