//! The free-space source.

use vstd::prelude::*;

use crate::block::{Block, BlockError, BlockState, ClickEvent, Icon};
use crate::text::{decimal, two_digits, push_decimal, push_two_digits};

verus! {

#[verifier::external_type_specification]
#[verifier::external_body]
pub struct ExErrno(nix::errno::Errno);

/// Bytes in a gibibyte.
pub const GIBIBYTE: u128 = 1073741824;

/// The space left to unprivileged users on a file system.
#[derive(Debug, Copy, Clone, PartialEq, Eq, Structural)]
pub struct DiskSpace {
    pub blocks_available: u64,
    pub block_size: u64,
}

/// `n / d`, rounded to the nearest whole number, ties to the even one.
pub open spec fn round_half_even(n: nat, d: nat) -> nat
    recommends
        d > 0,
{
    let q = n / d;
    let r = n % d;
    if 2 * r > d || (2 * r == d && q % 2 == 1) {
        q + 1
    } else {
        q
    }
}

/// The free bytes.
pub open spec fn free_bytes(s: DiskSpace) -> nat {
    (s.blocks_available * s.block_size) as nat
}

/// The free space in hundredths of a gibibyte.
pub open spec fn free_hundredths(s: DiskSpace) -> nat {
    round_half_even(free_bytes(s) * 100, GIBIBYTE as nat)
}

/// The free space in gibibytes with two decimals, then ` GB`.
pub open spec fn free_space_text(s: DiskSpace) -> Seq<char> {
    let h = free_hundredths(s);
    decimal(h / 100) + seq!['.'] + two_digits(h % 100) + " GB"@
}

/// Relies on `nix::sys::statvfs::statvfs`: the available blocks and the
/// block size of the file system at `/`, or the error of the call.
#[verifier::external_body]
fn root_disk_space() -> (r: Result<DiskSpace, nix::errno::Errno>)
{
    nix::sys::statvfs::statvfs("/").map(|s| DiskSpace {
        blocks_available: s.blocks_available() as u64,
        block_size: s.block_size() as u64,
    })
}

proof fn lemma_split_rounding(bytes: nat, whole: nat, rest: nat)
    requires
        bytes == whole * GIBIBYTE + rest,
        rest < GIBIBYTE,
    ensures
        round_half_even(bytes * 100, GIBIBYTE as nat) == whole * 100
            + round_half_even(rest * 100, GIBIBYTE as nat),
{
    let d = GIBIBYTE as int;
    let x: int = rest as int * 100;
    let q: int = x / d;
    let r: int = x % d;
    vstd::arithmetic::div_mod::lemma_fundamental_div_mod(x, d);
    assert(bytes * 100 == (whole * 100 + q) * d + r) by (nonlinear_arith)
        requires
            bytes == whole * d + rest,
            x == rest * 100,
            x == d * q + r;
    vstd::arithmetic::div_mod::lemma_fundamental_div_mod_converse(bytes as int * 100, d, whole * 100 + q, r);
    assert((whole * 100 + q) % 2 == q % 2) by (nonlinear_arith)
        requires whole >= 0, q >= 0;
}

/// The free space of `s` as text: gibibytes with two decimals.
pub fn format_free_space(s: &DiskSpace) -> (r: String)
    ensures
        r@ == free_space_text(*s),
{
    assert((s.blocks_available as u128) * (s.block_size as u128) <= u64::MAX * u64::MAX) by (nonlinear_arith)
        requires s.blocks_available <= u64::MAX, s.block_size <= u64::MAX;
    let bytes: u128 = (s.blocks_available as u128) * (s.block_size as u128);
    let whole: u128 = bytes / GIBIBYTE;
    let rest: u128 = bytes % GIBIBYTE;
    let scaled: u128 = rest * 100;
    let q: u128 = scaled / GIBIBYTE;
    let rem: u128 = scaled % GIBIBYTE;
    let up = 2 * rem > GIBIBYTE || (2 * rem == GIBIBYTE && q % 2 == 1);
    let frac: u128 = if up { q + 1 } else { q };
    proof {
        vstd::arithmetic::div_mod::lemma_fundamental_div_mod(bytes as int, GIBIBYTE as int);
        lemma_split_rounding(bytes as nat, whole as nat, rest as nat);
        assert(frac <= 100);
    }
    let hundredths: u128 = whole * 100 + frac;
    let mut r = String::new();
    push_decimal(&mut r, hundredths / 100);
    r.append(".");
    push_two_digits(&mut r, (hundredths % 100) as u32);
    r.append(" GB");
    proof {
        reveal_strlit(".");
    }
    assert(r@ =~= free_space_text(*s));
    r
}

/// The free-space source: the space left on the root file system.
pub struct FreeDiskSpace {}

impl FreeDiskSpace {
    pub fn new() -> Self {
        FreeDiskSpace {}
    }

    /// The text shown for `stats`.
    pub fn render(&self, stats: &DiskSpace) -> (r: BlockState)
        ensures
            r@ == Icon::HDD.spec_label(free_space_text(*stats)),
    {
        let text = format_free_space(stats);
        BlockState::new(Icon::HDD.label(text.as_str()))
    }

    /// The sample for an outcome of the file-system query: its text, or a
    /// failure where the query failed.
    pub fn state_for(&self, stats: Result<DiskSpace, nix::errno::Errno>) -> (r: Result<BlockState, BlockError>)
        ensures
            stats is Err <==> r is Err,
            stats matches Ok(s) ==> (r matches Ok(st) && st@ == Icon::HDD.spec_label(free_space_text(s))),
    {
        match stats {
            Ok(s) => Ok(self.render(&s)),
            Err(_) => Err(BlockError::new(String::from_str("Failed to stat"))),
        }
    }
}

impl Block for FreeDiskSpace {
    /// The free space of the root file system, whatever it is; a failure
    /// where the file-system query fails.
    fn current_state(&mut self) -> (r: Result<BlockState, BlockError>)
        ensures
            r matches Ok(st) ==> exists|s: DiskSpace| st@ == Icon::HDD.spec_label(free_space_text(s)),
    {
        let stats = root_disk_space();
        let ghost seen = stats;
        let r = self.state_for(stats);
        proof {
            if let Ok(s) = seen {
                assert(r matches Ok(st) && st@ == Icon::HDD.spec_label(free_space_text(s)));
            }
        }
        r
    }

    fn handle_click(&self, _event: ClickEvent) {
    }
}

} // verus!
