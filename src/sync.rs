//! The chain synchronization engine shared by both pollers: a pass reads the
//! remote tip and applies every block above the cursor, one at a time, each
//! followed by the cursors to persist.
//!
//! The engine decides; the caller performs the adapter calls between the
//! decisions and holds the shared document only while a decision runs.
use vstd::prelude::*;
use crate::model::{
    error_text, opt_text, BlockInfo, ChainState, ChainStateView, ConxianError, GatewayState,
    GatewayStateView, PersistentState,
};
use crate::text::{joined, owned};

verus! {

/// One of the two tracked chains.
#[derive(Debug, Clone, Copy, PartialEq, Eq, Structural)]
pub enum Chain {
    Bitcoin,
    Stacks,
}

/// The state of `c` within the document.
pub open spec fn chain_view(s: GatewayStateView, c: Chain) -> ChainStateView {
    match c {
        Chain::Bitcoin => s.bitcoin,
        Chain::Stacks => s.stacks,
    }
}

/// The document with the state of `c` replaced by `v`.
pub open spec fn with_chain(s: GatewayStateView, c: Chain, v: ChainStateView) -> GatewayStateView {
    match c {
        Chain::Bitcoin => GatewayStateView { bitcoin: v, ..s },
        Chain::Stacks => GatewayStateView { stacks: v, ..s },
    }
}

/// The cursors to persist once `c` reached `height`: that height, and the
/// other chain's height as the document holds it.
pub open spec fn snapshot_at(s: GatewayStateView, c: Chain, height: u64) -> PersistentState {
    match c {
        Chain::Bitcoin => PersistentState { bitcoin_height: height, stacks_height: s.stacks.height },
        Chain::Stacks => PersistentState { bitcoin_height: s.bitcoin.height, stacks_height: height },
    }
}

/// What a node reported about its chain besides blocks; each is recorded
/// with every applied block where it is known.
#[derive(Debug, Clone)]
pub struct ChainMeta {
    pub network: Option<String>,
    pub epoch: Option<String>,
    pub mode: Option<String>,
}

impl ChainMeta {
    /// Nothing known yet.
    pub fn unknown() -> (r: ChainMeta)
        ensures
            r.network is None,
            r.epoch is None,
            r.mode is None,
    {
        ChainMeta { network: None, epoch: None, mode: None }
    }
}

/// A pass has work when the tip lies above the cursor, or when there is no
/// cursor yet (zero).
pub open spec fn needs_sync(last: u64, tip: u64) -> bool {
    tip > last || last == 0
}

/// The first height a pass applies: the tip itself when there is no cursor
/// (history before it is not fetched), else the height after the cursor.
pub open spec fn first_height(last: u64, tip: u64) -> int {
    if last == 0 {
        tip as int
    } else {
        last + 1
    }
}

/// The heights a pass from cursor `last` to remote tip `tip` applies, in order.
pub open spec fn pass_heights(last: u64, tip: u64) -> Seq<u64> {
    if needs_sync(last, tip) {
        Seq::new(
            (tip - first_height(last, tip) + 1) as nat,
            |i: int| (first_height(last, tip) + i) as u64,
        )
    } else {
        Seq::empty()
    }
}

/// The cursor after a pass from `last` to `tip` that applied all its heights.
pub open spec fn pass_cursor(last: u64, tip: u64) -> u64 {
    if needs_sync(last, tip) {
        tip
    } else {
        last
    }
}

/// A chain after the block at `height` was applied to it.
pub open spec fn synced_chain(
    c: ChainStateView,
    height: u64,
    block: BlockInfo,
    meta: ChainMeta,
) -> ChainStateView {
    ChainStateView {
        height,
        status: "synced"@,
        last_updated: block.timestamp,
        best_block_hash: block.hash@,
        network: match opt_text(meta.network) {
            Some(n) => n,
            None => c.network,
        },
        epoch: match opt_text(meta.epoch) {
            Some(e) => Some(e),
            None => c.epoch,
        },
        mode: match opt_text(meta.mode) {
            Some(m) => Some(m),
            None => c.mode,
        },
    }
}

/// A chain whose tip could not be read: only its status changes.
pub open spec fn errored_chain(c: ChainStateView, e: ConxianError) -> ChainStateView {
    ChainStateView { status: "error: "@ + error_text(e), ..c }
}

/// The heights that remain to be applied in one pass.
pub struct Backfill {
    next: u64,
    tip: u64,
    left: bool,
    start: u64,
}

impl Backfill {
    #[verifier::type_invariant]
    spec fn inv(self) -> bool {
        self.left ==> self.next <= self.tip
    }

    /// The heights still to apply, in order.
    pub closed spec fn pending(self) -> Seq<u64> {
        if self.left && self.next <= self.tip {
            Seq::new((self.tip - self.next + 1) as nat, |i: int| (self.next + i) as u64)
        } else {
            Seq::empty()
        }
    }

    /// The remote tip the pass runs to.
    pub closed spec fn target(self) -> u64 {
        self.tip
    }

    /// The cursor the pass started from.
    pub closed spec fn origin(self) -> u64 {
        self.start
    }

    /// The cursor once every pending height has been applied.
    pub closed spec fn final_cursor(self) -> u64 {
        pass_cursor(self.start, self.tip)
    }

    /// Whether no height is left.
    pub fn is_done(&self) -> (r: bool)
        ensures
            r == (self.pending().len() == 0),
    {
        proof {
            use_type_invariant(self);
        }
        !self.left
    }

    /// The next height to fetch.
    pub fn next_height(&self) -> (r: u64)
        requires
            self.pending().len() > 0,
        ensures
            r == self.pending()[0],
    {
        self.next
    }
}

/// A non-empty pass ends at its tip.
pub proof fn lemma_pass_ends_at_target(pass: Backfill)
    ensures
        pass.pending().len() > 0 ==> pass.pending().last() == pass.target(),
{
}

/// Starts a pass of chain `c` from `cursor` with the remote tip the node
/// reported. On success the document is untouched and the pass holds the
/// heights to apply. On failure the chain's status records the error, the
/// rest of the document stays, and the error is returned.
pub fn begin_pass(
    c: Chain,
    cursor: u64,
    tip: Result<u64, ConxianError>,
    state: &mut GatewayState,
) -> (r: Result<Backfill, ConxianError>)
    ensures
        match tip {
            Ok(t) => {
                &&& r matches Ok(p) && p.pending() == pass_heights(cursor, t)
                    && p.final_cursor() == pass_cursor(cursor, t) && p.origin() == cursor
                    && p.target() == t
                &&& final(state)@ == old(state)@
            },
            Err(e) => {
                &&& r == Err::<Backfill, ConxianError>(e)
                &&& final(state)@ == with_chain(
                    old(state)@,
                    c,
                    errored_chain(chain_view(old(state)@, c), e),
                )
            },
        },
{
    match tip {
        Ok(t) => {
            let left = t > cursor || cursor == 0;
            let next = if cursor == 0 {
                t
            } else if left {
                cursor + 1
            } else {
                cursor
            };
            let p = Backfill { next, tip: t, left, start: cursor };
            proof {
                assert(p.pending() =~= pass_heights(cursor, t));
            }
            Ok(p)
        },
        Err(e) => {
            let msg = e.message();
            let status = joined("error: ", msg.as_str());
            match c {
                Chain::Bitcoin => state.bitcoin.status = status,
                Chain::Stacks => state.stacks.status = status,
            }
            Err(e)
        },
    }
}

fn record_block(chain: &mut ChainState, height: u64, block: BlockInfo, meta: &ChainMeta)
    ensures
        final(chain)@ == synced_chain(old(chain)@, height, block, *meta),
{
    chain.height = height;
    chain.last_updated = block.timestamp;
    chain.status = owned("synced");
    chain.best_block_hash = block.hash;
    if let Some(n) = &meta.network {
        chain.network = n.clone();
    }
    if let Some(e) = &meta.epoch {
        chain.epoch = Some(e.clone());
    }
    if let Some(m) = &meta.mode {
        chain.mode = Some(m.clone());
    }
}

/// Applies to chain `c` the block fetched for the next pending height. On
/// success the chain takes that height with the block's hash and time,
/// status `synced`, and whatever of `meta` is known; the height leaves the
/// pass, and the cursors to persist are returned. On failure nothing changes
/// and the error is returned: the pass ends there and the cursor keeps its
/// value, so the height is fetched again on the next pass.
pub fn apply_block(
    c: Chain,
    meta: &ChainMeta,
    pass: &mut Backfill,
    block: Result<BlockInfo, ConxianError>,
    state: &mut GatewayState,
) -> (r: Result<PersistentState, ConxianError>)
    requires
        old(pass).pending().len() > 0,
    ensures
        match block {
            Ok(b) => {
                &&& r == Ok::<PersistentState, ConxianError>(
                    snapshot_at(old(state)@, c, old(pass).pending()[0]),
                )
                &&& final(pass).pending() == old(pass).pending().drop_first()
                &&& final(state)@ == with_chain(
                    old(state)@,
                    c,
                    synced_chain(chain_view(old(state)@, c), old(pass).pending()[0], b, *meta),
                )
            },
            Err(e) => {
                &&& r == Err::<PersistentState, ConxianError>(e)
                &&& final(pass).pending() == old(pass).pending()
                &&& final(state)@ == old(state)@
            },
        },
        final(pass).final_cursor() == old(pass).final_cursor(),
        final(pass).origin() == old(pass).origin(),
        final(pass).target() == old(pass).target(),
{
    proof {
        use_type_invariant(&*pass);
    }
    match block {
        Ok(b) => {
            let h = pass.next;
            match c {
                Chain::Bitcoin => record_block(&mut state.bitcoin, h, b, meta),
                Chain::Stacks => record_block(&mut state.stacks, h, b, meta),
            }
            let ghost before = pass.pending();
            if pass.next < pass.tip {
                pass.next = pass.next + 1;
            } else {
                pass.left = false;
            }
            proof {
                assert(pass.pending() =~= before.drop_first());
            }
            let snapshot = match c {
                Chain::Bitcoin => PersistentState { bitcoin_height: h, stacks_height: state.stacks.height },
                Chain::Stacks => PersistentState { bitcoin_height: state.bitcoin.height, stacks_height: h },
            };
            Ok(snapshot)
        },
        Err(e) => Err(e),
    }
}

/// Ends a pass whose heights were all applied: the cursor moves to the tip
/// where the pass had work, and stays otherwise.
pub fn finish_pass(cursor: &mut u64, pass: Backfill)
    requires
        pass.pending().len() == 0,
        pass.origin() == *old(cursor),
    ensures
        *final(cursor) == pass.final_cursor(),
{
    if pass.start == 0 || pass.tip > pass.start {
        *cursor = pass.tip;
    }
}

/// Passes against rising tips `h0 < h1 < h2`, the first from no cursor,
/// apply `h0, h0 + 1, ..., h2`: every height from the first tip up, each
/// once, in increasing order, and the cursor ends at `h2`; this holds both
/// when a pass runs at `h1` in between and when none does. A zero first tip
/// is left out: the cursor stays zero after it, and the next pass starts
/// again at its own tip.
pub proof fn lemma_passes_apply_every_height(h0: u64, h1: u64, h2: u64)
    requires
        0 < h0 < h1 < h2,
    ensures
        pass_heights(0, h0) + pass_heights(pass_cursor(0, h0), h1) + pass_heights(
            pass_cursor(pass_cursor(0, h0), h1),
            h2,
        ) == Seq::new((h2 - h0 + 1) as nat, |i: int| (h0 + i) as u64),
        pass_cursor(pass_cursor(pass_cursor(0, h0), h1), h2) == h2,
        pass_heights(0, h0) + pass_heights(pass_cursor(0, h0), h2) == Seq::new(
            (h2 - h0 + 1) as nat,
            |i: int| (h0 + i) as u64,
        ),
        pass_cursor(pass_cursor(0, h0), h2) == h2,
{
    assert(pass_cursor(0, h0) == h0);
    assert(pass_cursor(h0, h1) == h1);
    assert(pass_heights(0, h0) + pass_heights(h0, h2) =~= Seq::new(
        (h2 - h0 + 1) as nat,
        |i: int| (h0 + i) as u64,
    ));
    assert(pass_heights(0, h0) + pass_heights(h0, h1) + pass_heights(h1, h2) =~= Seq::new(
        (h2 - h0 + 1) as nat,
        |i: int| (h0 + i) as u64,
    ));
}

/// A second pass against the tip the previous pass reached applies nothing
/// and keeps the cursor, once the cursor is not zero.
pub proof fn lemma_repeated_pass_is_no_op(last: u64, tip: u64)
    requires
        pass_cursor(last, tip) > 0,
    ensures
        pass_heights(pass_cursor(last, tip), tip).len() == 0,
        pass_cursor(pass_cursor(last, tip), tip) == pass_cursor(last, tip),
{
}

} // verus!
