//! The settlement chain poller, on the shared synchronization engine, and
//! the node adapters of this chain.
use vstd::prelude::*;
use crate::model::{opt_text, BlockInfo, ConxianError, GatewayState, PersistentState};
use crate::persistence::Persistence;
use crate::sync::{
    apply_block, begin_pass, errored_chain, finish_pass, lemma_pass_ends_at_target, needs_sync,
    pass_cursor, pass_heights, snapshot_at, synced_chain, with_chain, Backfill, Chain, ChainMeta,
};
use crate::text::{decimal, int_decimal, joined, nat_decimal, owned, signed_decimal};

verus! {

/// What a settlement chain node reports about its tip.
#[derive(Debug, Clone)]
pub struct StacksNetworkInfo {
    pub height: u64,
    pub network: String,
    pub epoch: String,
    pub burn_block_height: u64,
}

/// Access to a settlement chain node.
pub trait StacksRpc: Send + Sync {
    /// The height of the node's tip.
    fn get_block_count(&self) -> Result<u64, ConxianError>;

    /// The node's tip, network and epoch.
    fn get_network_info(&self) -> Result<StacksNetworkInfo, ConxianError>;

    /// The block at `height`.
    fn get_block_info(&self, height: u64) -> Result<BlockInfo, ConxianError>;
}

/// A node held in memory at a fixed height, for tests and demonstrations; it
/// never fails.
pub struct SimulatedStacksRpc {
    pub initial_height: u64,
}

impl StacksRpc for SimulatedStacksRpc {
    fn get_block_count(&self) -> (r: Result<u64, ConxianError>)
        ensures
            r == Ok::<u64, ConxianError>(self.initial_height),
    {
        Ok(self.initial_height)
    }

    fn get_network_info(&self) -> (r: Result<StacksNetworkInfo, ConxianError>)
        ensures
            r matches Ok(info) && info.height == self.initial_height && info.network@
                == "simulated"@ && info.epoch@ == "3.0"@ && info.burn_block_height
                == self.initial_height / 10,
    {
        Ok(
            StacksNetworkInfo {
                height: self.initial_height,
                network: owned("simulated"),
                epoch: owned("3.0"),
                burn_block_height: self.initial_height / 10,
            },
        )
    }

    fn get_block_info(&self, height: u64) -> (r: Result<BlockInfo, ConxianError>)
        ensures
            r matches Ok(b) && b.height == height && b.hash@ == "simulated-"@ + nat_decimal(
                height as nat,
            ) && b.timestamp == 0,
    {
        let digits = decimal(height);
        Ok(BlockInfo { hash: joined("simulated-", digits.as_str()), height, timestamp: 0 })
    }
}

/// The HTTP endpoint of a settlement chain node.
pub struct StacksRpcClient {
    url: String,
}

impl StacksRpcClient {
    /// A client for the node at `url`.
    pub fn new(url: &str) -> (r: StacksRpcClient)
        ensures
            r.base_url() == url@,
    {
        StacksRpcClient { url: owned(url) }
    }

    /// The node's base address.
    pub closed spec fn base_url(&self) -> Seq<char> {
        self.url@
    }

    /// The address of the node's info document.
    pub fn info_url(&self) -> (r: String)
        ensures
            r@ == self.base_url() + "/v2/info"@,
    {
        joined(self.url.as_str(), "/v2/info")
    }

    /// The address of the document that describes the block at `height`.
    pub fn block_url(&self, height: u64) -> (r: String)
        ensures
            r@ == self.base_url() + "/extended/v1/block/by_height/"@ + nat_decimal(height as nat),
    {
        let path = joined(self.url.as_str(), "/extended/v1/block/by_height/");
        let digits = decimal(height);
        joined(path.as_str(), digits.as_str())
    }

    /// Accepts an answer with status 200; any other status is an error of
    /// the settlement chain that names the status.
    pub fn check_status(status_code: i32) -> (r: Result<(), ConxianError>)
        ensures
            status_code == 200 ==> r == Ok::<(), ConxianError>(()),
            status_code != 200 ==> (r matches Err(ConxianError::Stacks(m)) && m@
                == "Stacks RPC error: status "@ + int_decimal(status_code as int)),
    {
        if status_code == 200 {
            Ok(())
        } else {
            let code = signed_decimal(status_code);
            Err(ConxianError::Stacks(joined("Stacks RPC error: status ", code.as_str())))
        }
    }
}

/// Follows the settlement chain for the gateway.
pub struct StacksListener<R: StacksRpc> {
    pub rpc: R,
    last_height: u64,
    meta: ChainMeta,
}

impl<R: StacksRpc> StacksListener<R> {
    /// The height of the last applied block; zero before the first.
    pub closed spec fn cursor(&self) -> u64 {
        self.last_height
    }

    /// The adapter the poller reads the chain through.
    pub closed spec fn adapter(&self) -> R {
        self.rpc
    }

    /// What the poller records with each block: network, epoch and mode
    /// from the node's latest report.
    pub closed spec fn meta(&self) -> ChainMeta {
        self.meta
    }

    /// A poller that starts from the cursor in `persisted`, or from zero where
    /// loading the cursors failed.
    pub fn new(rpc: R, persisted: Result<PersistentState, ConxianError>) -> (r: Self)
        ensures
            r.adapter() == rpc,
            r.cursor() == match persisted {
                Ok(s) => s.stacks_height,
                Err(_) => 0,
            },
            r.meta().network is None,
            r.meta().epoch is None,
            r.meta().mode is None,
    {
        let last_height = match persisted {
            Ok(s) => s.stacks_height,
            Err(_) => 0,
        };
        StacksListener { rpc, last_height, meta: ChainMeta::unknown() }
    }

    /// The height of the last applied block.
    pub fn last_height(&self) -> (r: u64)
        ensures
            r == self.cursor(),
    {
        self.last_height
    }

    /// Starts a pass with what the node reported. On success its network
    /// and epoch, with mode `nakamoto`, become what the pass records with
    /// each block, the document is untouched, and the pass holds the heights
    /// from the cursor to the reported tip. On failure the chain's status
    /// records the error and the error is returned.
    pub fn begin_pass(
        &mut self,
        info: Result<StacksNetworkInfo, ConxianError>,
        state: &mut GatewayState,
    ) -> (r: Result<Backfill, ConxianError>)
        ensures
            final(self).cursor() == old(self).cursor(),
            final(self).adapter() == old(self).adapter(),
            match info {
                Ok(i) => {
                    &&& r matches Ok(p) && p.pending() == pass_heights(old(self).cursor(), i.height)
                        && p.final_cursor() == pass_cursor(old(self).cursor(), i.height)
                        && p.origin() == old(self).cursor() && p.target() == i.height
                    &&& final(state)@ == old(state)@
                    &&& opt_text(final(self).meta().network) == Some(i.network@)
                    &&& opt_text(final(self).meta().epoch) == Some(i.epoch@)
                    &&& opt_text(final(self).meta().mode) == Some("nakamoto"@)
                },
                Err(e) => {
                    &&& r == Err::<Backfill, ConxianError>(e)
                    &&& final(state)@ == with_chain(
                        old(state)@,
                        Chain::Stacks,
                        errored_chain(old(state)@.stacks, e),
                    )
                    &&& final(self).meta() == old(self).meta()
                },
            },
    {
        match info {
            Ok(i) => {
                let tip = i.height;
                self.meta = ChainMeta {
                    network: Some(i.network),
                    epoch: Some(i.epoch),
                    mode: Some(owned("nakamoto")),
                };
                begin_pass(Chain::Stacks, self.last_height, Ok(tip), state)
            },
            Err(e) => begin_pass(Chain::Stacks, self.last_height, Err(e), state),
        }
    }

    /// Applies the block fetched for the next pending height; see
    /// [`apply_block`].
    pub fn apply_block(
        &self,
        pass: &mut Backfill,
        block: Result<BlockInfo, ConxianError>,
        state: &mut GatewayState,
    ) -> (r: Result<PersistentState, ConxianError>)
        requires
            old(pass).pending().len() > 0,
        ensures
            match block {
                Ok(b) => {
                    &&& r == Ok::<PersistentState, ConxianError>(
                        snapshot_at(old(state)@, Chain::Stacks, old(pass).pending()[0]),
                    )
                    &&& final(pass).pending() == old(pass).pending().drop_first()
                    &&& final(state)@ == with_chain(
                        old(state)@,
                        Chain::Stacks,
                        synced_chain(old(state)@.stacks, old(pass).pending()[0], b, self.meta()),
                    )
                },
                Err(e) => {
                    &&& r == Err::<PersistentState, ConxianError>(e)
                    &&& final(pass).pending() == old(pass).pending()
                    &&& final(state)@ == old(state)@
                },
            },
            final(pass).final_cursor() == old(pass).final_cursor(),
            final(pass).origin() == old(pass).origin(),
            final(pass).target() == old(pass).target(),
    {
        apply_block(Chain::Stacks, &self.meta, pass, block, state)
    }

    /// Ends a pass whose heights were all applied: the cursor moves to the
    /// tip where the pass had work, and stays otherwise.
    pub fn finish_pass(&mut self, pass: Backfill)
        requires
            pass.pending().len() == 0,
            pass.origin() == old(self).cursor(),
        ensures
            final(self).cursor() == pass.final_cursor(),
            final(self).meta() == old(self).meta(),
            final(self).adapter() == old(self).adapter(),
    {
        finish_pass(&mut self.last_height, pass);
    }

    /// One pass against the adapter: reads the node's report, then fetches
    /// and applies each block from the cursor up to the reported tip in
    /// order, handing the cursors to `persistence` after each. A failure to
    /// save is not the pass's failure. Whatever the adapter reports, only
    /// this chain's state changes; a failed pass leaves the cursor; a moved
    /// cursor is the chain's height, with status `synced`; and a non-zero
    /// cursor never moves back.
    pub fn sync_once<P: Persistence>(&mut self, persistence: &P, state: &mut GatewayState) -> (r:
        Result<(), ConxianError>)
        ensures
            final(self).adapter() == old(self).adapter(),
            r is Err ==> final(self).cursor() == old(self).cursor(),
            final(self).cursor() != old(self).cursor() ==> final(state)@.stacks.height
                == final(self).cursor() && final(state)@.stacks.status == "synced"@,
            old(self).cursor() > 0 ==> final(self).cursor() >= old(self).cursor(),
            final(state)@.bitcoin == old(state)@.bitcoin,
            final(state).metrics == old(state).metrics,
            final(state).start_time == old(state).start_time,
    {
        let info = self.rpc.get_network_info();
        let mut pass = match self.begin_pass(info, state) {
            Ok(p) => p,
            Err(e) => return Err(e),
        };
        let ghost work = needs_sync(pass.origin(), pass.target());
        while !pass.is_done()
            invariant
                pass.origin() == self.cursor(),
                pass.final_cursor() == pass_cursor(pass.origin(), pass.target()),
                self.adapter() == old(self).adapter(),
                self.cursor() == old(self).cursor(),
                work == needs_sync(pass.origin(), pass.target()),
                !work ==> pass.pending().len() == 0,
                work ==> pass.pending().len() > 0 || (state.stacks.height == pass.target()
                    && state@.stacks.status == "synced"@),
                state@.bitcoin == old(state)@.bitcoin,
                state.metrics == old(state).metrics,
                state.start_time == old(state).start_time,
            decreases pass.pending().len(),
        {
            let h = pass.next_height();
            let block = self.rpc.get_block_info(h);
            let ghost before = pass;
            proof {
                lemma_pass_ends_at_target(before);
            }
            match self.apply_block(&mut pass, block, state) {
                Ok(snapshot) => {
                    let _ = persistence.save(&snapshot);
                },
                Err(e) => return Err(e),
            }
        }
        self.finish_pass(pass);
        Ok(())
    }
}

} // verus!
