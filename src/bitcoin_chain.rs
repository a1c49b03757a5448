//! The proof-of-work chain poller, on the shared synchronization engine.
use vstd::prelude::*;
use crate::model::{opt_text, BlockInfo, ConxianError, GatewayState, PersistentState};
use crate::persistence::Persistence;
use crate::sync::{
    apply_block, begin_pass, chain_view, errored_chain, finish_pass, lemma_pass_ends_at_target,
    needs_sync, pass_cursor, pass_heights, snapshot_at, synced_chain, with_chain, Backfill,
    Chain, ChainMeta,
};

verus! {

/// Access to a proof-of-work chain node.
pub trait BitcoinRpc: Send + Sync {
    /// The height of the node's best block.
    fn get_block_count(&self) -> Result<u64, ConxianError>;

    /// The block at `height`.
    fn get_block_info(&self, height: u64) -> Result<BlockInfo, ConxianError>;

    /// The name of the node's network.
    fn get_network_info(&self) -> Result<String, ConxianError>;
}

/// Follows the proof-of-work chain for the gateway.
pub struct BitcoinListener<R: BitcoinRpc> {
    pub rpc: R,
    last_height: u64,
    meta: ChainMeta,
}

impl<R: BitcoinRpc> BitcoinListener<R> {
    /// The height of the last applied block; zero before the first.
    pub closed spec fn cursor(&self) -> u64 {
        self.last_height
    }

    /// The adapter the poller reads the chain through.
    pub closed spec fn adapter(&self) -> R {
        self.rpc
    }

    /// What the poller records with each block: the network name once the
    /// node reported it; this chain has no epoch or mode.
    pub closed spec fn meta(&self) -> ChainMeta {
        self.meta
    }

    /// A poller that starts from the cursor in `persisted`, or from zero where
    /// loading the cursors failed.
    pub fn new(rpc: R, persisted: Result<PersistentState, ConxianError>) -> (r: Self)
        ensures
            r.adapter() == rpc,
            r.cursor() == match persisted {
                Ok(s) => s.bitcoin_height,
                Err(_) => 0,
            },
            r.meta().network is None,
            r.meta().epoch is None,
            r.meta().mode is None,
    {
        let last_height = match persisted {
            Ok(s) => s.bitcoin_height,
            Err(_) => 0,
        };
        BitcoinListener { rpc, last_height, meta: ChainMeta::unknown() }
    }

    /// The height of the last applied block.
    pub fn last_height(&self) -> (r: u64)
        ensures
            r == self.cursor(),
    {
        self.last_height
    }

    /// Whether the network name is still unknown, so that a pass should ask
    /// the node for it first.
    pub fn wants_network_info(&self) -> (r: bool)
        ensures
            r == (self.meta().network is None),
    {
        self.meta.network.is_none()
    }

    /// Keeps the network name the node reported; a failure leaves it unknown
    /// and the pass goes on.
    pub fn record_network_info(&mut self, info: Result<String, ConxianError>)
        ensures
            opt_text(final(self).meta().network) == match info {
                Ok(n) => Some(n@),
                Err(_) => opt_text(old(self).meta().network),
            },
            final(self).meta().epoch == old(self).meta().epoch,
            final(self).meta().mode == old(self).meta().mode,
            final(self).cursor() == old(self).cursor(),
            final(self).adapter() == old(self).adapter(),
    {
        if let Ok(n) = info {
            self.meta.network = Some(n);
        }
    }

    /// Starts a pass with the remote tip the node reported; see
    /// [`begin_pass`].
    pub fn begin_pass(&self, tip: Result<u64, ConxianError>, state: &mut GatewayState) -> (r:
        Result<Backfill, ConxianError>)
        ensures
            match tip {
                Ok(t) => {
                    &&& r matches Ok(p) && p.pending() == pass_heights(self.cursor(), t)
                        && p.final_cursor() == pass_cursor(self.cursor(), t)
                        && p.origin() == self.cursor() && p.target() == t
                    &&& final(state)@ == old(state)@
                },
                Err(e) => {
                    &&& r == Err::<Backfill, ConxianError>(e)
                    &&& final(state)@ == with_chain(
                        old(state)@,
                        Chain::Bitcoin,
                        errored_chain(old(state)@.bitcoin, e),
                    )
                },
            },
    {
        begin_pass(Chain::Bitcoin, self.last_height, tip, state)
    }

    /// Applies the block fetched for the next pending height; see
    /// [`apply_block`].
    pub fn apply_block(
        &self,
        pass: &mut Backfill,
        block: Result<BlockInfo, ConxianError>,
        state: &mut GatewayState,
    ) -> (r: Result<PersistentState, ConxianError>)
        requires
            old(pass).pending().len() > 0,
        ensures
            match block {
                Ok(b) => {
                    &&& r == Ok::<PersistentState, ConxianError>(
                        snapshot_at(old(state)@, Chain::Bitcoin, old(pass).pending()[0]),
                    )
                    &&& final(pass).pending() == old(pass).pending().drop_first()
                    &&& final(state)@ == with_chain(
                        old(state)@,
                        Chain::Bitcoin,
                        synced_chain(old(state)@.bitcoin, old(pass).pending()[0], b, self.meta()),
                    )
                },
                Err(e) => {
                    &&& r == Err::<PersistentState, ConxianError>(e)
                    &&& final(pass).pending() == old(pass).pending()
                    &&& final(state)@ == old(state)@
                },
            },
            final(pass).final_cursor() == old(pass).final_cursor(),
            final(pass).origin() == old(pass).origin(),
            final(pass).target() == old(pass).target(),
    {
        apply_block(Chain::Bitcoin, &self.meta, pass, block, state)
    }

    /// Ends a pass whose heights were all applied: the cursor moves to the
    /// tip where the pass had work, and stays otherwise.
    pub fn finish_pass(&mut self, pass: Backfill)
        requires
            pass.pending().len() == 0,
            pass.origin() == old(self).cursor(),
        ensures
            final(self).cursor() == pass.final_cursor(),
            final(self).meta() == old(self).meta(),
            final(self).adapter() == old(self).adapter(),
    {
        finish_pass(&mut self.last_height, pass);
    }

    /// One pass against the adapter: learns the network name if it is still
    /// unknown, reads the tip, then fetches and applies each pending block in
    /// order, handing the cursors to `persistence` after each. A failure to
    /// save is not the pass's failure. Whatever the adapter reports, only
    /// this chain's state changes; a failed pass leaves the cursor; a moved
    /// cursor is the chain's height, with status `synced`; and a non-zero
    /// cursor never moves back.
    pub fn sync_once<P: Persistence>(&mut self, persistence: &P, state: &mut GatewayState) -> (r:
        Result<(), ConxianError>)
        ensures
            final(self).adapter() == old(self).adapter(),
            r is Err ==> final(self).cursor() == old(self).cursor(),
            final(self).cursor() != old(self).cursor() ==> final(state)@.bitcoin.height
                == final(self).cursor() && final(state)@.bitcoin.status == "synced"@,
            old(self).cursor() > 0 ==> final(self).cursor() >= old(self).cursor(),
            final(state)@.stacks == old(state)@.stacks,
            final(state).metrics == old(state).metrics,
            final(state).start_time == old(state).start_time,
    {
        if self.wants_network_info() {
            let info = self.rpc.get_network_info();
            self.record_network_info(info);
        }
        let tip = self.rpc.get_block_count();
        let mut pass = match self.begin_pass(tip, state) {
            Ok(p) => p,
            Err(e) => return Err(e),
        };
        let ghost work = needs_sync(pass.origin(), pass.target());
        while !pass.is_done()
            invariant
                pass.origin() == self.cursor(),
                pass.final_cursor() == pass_cursor(pass.origin(), pass.target()),
                self.adapter() == old(self).adapter(),
                self.cursor() == old(self).cursor(),
                work == needs_sync(pass.origin(), pass.target()),
                !work ==> pass.pending().len() == 0,
                work ==> pass.pending().len() > 0 || (state.bitcoin.height == pass.target()
                    && state@.bitcoin.status == "synced"@),
                state@.stacks == old(state)@.stacks,
                state.metrics == old(state).metrics,
                state.start_time == old(state).start_time,
            decreases pass.pending().len(),
        {
            let h = pass.next_height();
            let block = self.rpc.get_block_info(h);
            let ghost before = pass;
            proof {
                lemma_pass_ends_at_target(before);
            }
            match self.apply_block(&mut pass, block, state) {
                Ok(snapshot) => {
                    let _ = persistence.save(&snapshot);
                },
                Err(e) => return Err(e),
            }
        }
        self.finish_pass(pass);
        Ok(())
    }
}

} // verus!
