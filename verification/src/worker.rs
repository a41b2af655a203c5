//! The queue worker: drains the request virtqueue, processes each descriptor
//! chain through decode, execute and encode, retires it as used and raises
//! the interrupt.

use vstd::prelude::*;

use crate::chain::DescriptorChain;
use crate::command::spec_decode;
use crate::command::Command;
use crate::constants::CDB_OFFSET;
use crate::constants::REQ_SIZE;
use crate::constants::RESP_SIZE;
use crate::device::LogicalUnit;
use crate::execute::execute_command;
use crate::execute::is_lun0;
use crate::execute::spec_execute_data;
use crate::execute::spec_execute_outcome;
use crate::execute::spec_execute_store;
use crate::execute::spec_is_lun0;
use crate::response::spec_bad_target_resp;
use crate::response::spec_error_resp;
use crate::response::spec_ok_resp;
use crate::response::spec_resp_bytes;
use crate::response::ExecuteError;
use crate::response::SpecResp;
use crate::response::VirtioScsiCmdResp;
use crate::storage::StorageImage;

verus! {

/// The response a request is answered with, assuming the chain leaves room
/// for one: a transport-level read failure when the request structure is
/// short; the bad-target response when the LUN address does not select the
/// exposed target; the sense-bearing response of a decode error; and
/// otherwise the response of the execution outcome.
pub open spec fn spec_process_resp(
    input: Seq<u8>,
    lun: LogicalUnit,
    store: Seq<u8>,
    data_room: int,
) -> SpecResp {
    if input.len() < REQ_SIZE {
        spec_error_resp(ExecuteError::Read)
    } else if !spec_is_lun0(input) {
        spec_bad_target_resp()
    } else {
        match spec_decode(input.subrange(CDB_OFFSET as int, REQ_SIZE as int)) {
            Err(e) => spec_error_resp(e),
            Ok(cmd) => match spec_execute_outcome(
                cmd,
                lun,
                input.skip(REQ_SIZE as int),
                store,
                data_room,
            ) {
                Ok(_) => spec_ok_resp(),
                Err(e) => spec_error_resp(e),
            },
        }
    }
}

/// The bytes a request appends to the chain's data region: what its command
/// execution appends, and nothing when execution is never reached.
pub open spec fn spec_process_data(
    input: Seq<u8>,
    lun: LogicalUnit,
    store: Seq<u8>,
    data_room: int,
) -> Seq<u8> {
    if input.len() >= REQ_SIZE && spec_is_lun0(input) && spec_decode(
        input.subrange(CDB_OFFSET as int, REQ_SIZE as int),
    ) is Ok {
        spec_execute_data(
            spec_decode(input.subrange(CDB_OFFSET as int, REQ_SIZE as int))->Ok_0,
            lun,
            store,
            data_room,
        )
    } else {
        Seq::empty()
    }
}

/// The storage image after a request: what its command execution leaves, and
/// unchanged when execution is never reached.
pub open spec fn spec_process_store(input: Seq<u8>, lun: LogicalUnit, store: Seq<u8>) -> Seq<u8> {
    if input.len() >= REQ_SIZE && spec_is_lun0(input) && spec_decode(
        input.subrange(CDB_OFFSET as int, REQ_SIZE as int),
    ) is Ok {
        spec_execute_store(
            spec_decode(input.subrange(CDB_OFFSET as int, REQ_SIZE as int))->Ok_0,
            lun,
            input.skip(REQ_SIZE as int),
            store,
        )
    } else {
        store
    }
}

/// Whether the device attempts to write a response itself before the caller
/// falls back: the request structure was readable and either the target was
/// wrong or a command was decoded.
pub open spec fn spec_resp_attempted(input: Seq<u8>) -> bool {
    input.len() >= REQ_SIZE && (!spec_is_lun0(input) || spec_decode(
        input.subrange(CDB_OFFSET as int, REQ_SIZE as int),
    ) is Ok)
}

/// Parses and executes one request from the chain's input stream: reads the
/// request structure, matches the LUN address, decodes the CDB, executes the
/// command and writes the response structure into the chain's response
/// region.  A failure to read the request structure, a decode error, or a
/// failure to write the response is returned instead, the response region
/// then untouched; any other outcome, the bad target included, is conveyed
/// to the guest in the written response, and the count of response bytes
/// written is returned.
pub fn execute_request(
    chain: &mut DescriptorChain,
    lun: &LogicalUnit,
    storage: &mut StorageImage,
) -> (r: Result<usize, ExecuteError>)
    requires
        old(chain).wf(),
    ensures
        final (chain).wf(),
        final (chain).input@ == old(chain).input@,
        final (chain).resp.capacity == old(chain).resp.capacity,
        final (chain).data.capacity == old(chain).data.capacity,
        final (storage)@ =~= spec_process_store(old(chain).input@, *lun, old(storage)@),
        final (chain).data.data@ =~= old(chain).data.data@ + spec_process_data(
            old(chain).input@,
            *lun,
            old(storage)@,
            old(chain).data.spec_room(),
        ),
        ({
            let input = old(chain).input@;
            let fits = RESP_SIZE <= old(chain).resp.spec_room();
            &&& !spec_resp_attempted(input) ==> final (chain).resp == old(chain).resp
            &&& spec_resp_attempted(input) && fits ==> final (chain).resp.data@ =~= old(
                chain,
            ).resp.data@ + spec_resp_bytes(
                spec_process_resp(input, *lun, old(storage)@, old(chain).data.spec_room()),
            ) && r == Ok::<usize, ExecuteError>(
                (old(chain).resp.data@.len() + RESP_SIZE) as usize,
            )
            &&& spec_resp_attempted(input) && !fits ==> final (chain).resp == old(chain).resp && r
                == Err::<usize, ExecuteError>(ExecuteError::Write)
            &&& input.len() < REQ_SIZE ==> r == Err::<usize, ExecuteError>(ExecuteError::Read)
            &&& input.len() >= REQ_SIZE && spec_is_lun0(input) && spec_decode(
                input.subrange(CDB_OFFSET as int, REQ_SIZE as int),
            ) is Err ==> r == Err::<usize, ExecuteError>(
                spec_decode(input.subrange(CDB_OFFSET as int, REQ_SIZE as int))->Err_0,
            )
        }),
{
    if chain.input.len() < REQ_SIZE {
        return Err(ExecuteError::Read);
    }
    let lun_ok = is_lun0(chain.input.as_slice());
    let resp: VirtioScsiCmdResp = if !lun_ok {
        VirtioScsiCmdResp::bad_target_resp()
    } else {
        let cdb = slice_of(&chain.input, CDB_OFFSET, REQ_SIZE);
        let cmd = match Command::new(cdb.as_slice()) {
            Ok(c) => c,
            Err(e) => {
                return Err(e);
            },
        };
        let payload = slice_of(&chain.input, REQ_SIZE, chain.input.len());
        let outcome = execute_command(
            cmd,
            lun,
            payload.as_slice(),
            &mut chain.data,
            storage,
        );
        proof {
            assert(payload@ =~= old(chain).input@.skip(REQ_SIZE as int));
        }
        match outcome {
            Ok(_) => VirtioScsiCmdResp::ok_resp(),
            Err(e) => e.as_resp(),
        }
    };
    let resp_bytes = resp.to_bytes();
    match chain.resp.write_all(resp_bytes.as_slice()) {
        Ok(_) => Ok(chain.resp.bytes_written()),
        Err(_) => Err(ExecuteError::Write),
    }
}

/// Copies the byte range `[start, end)` out of a buffer.
fn slice_of(v: &Vec<u8>, start: usize, end: usize) -> (r: Vec<u8>)
    requires
        start <= end <= v@.len(),
    ensures
        r@ =~= v@.subrange(start as int, end as int),
{
    let mut out: Vec<u8> = Vec::new();
    let mut i: usize = start;
    while i < end
        invariant
            start <= i <= end,
            end <= v@.len(),
            out@ =~= v@.subrange(start as int, i as int),
        decreases end - i,
    {
        out.push(v[i]);
        i = i + 1;
    }
    out
}

/// Processes one request to completion, always leaving a response when the
/// chain has room for one: if executing the request fails before a response
/// could be written, the error's own response is written instead, best
/// effort.  Returns the total bytes written into the chain's writable area.
pub fn process_one_request(
    chain: &mut DescriptorChain,
    lun: &LogicalUnit,
    storage: &mut StorageImage,
) -> (r: usize)
    requires
        old(chain).wf(),
    ensures
        final (chain).wf(),
        final (chain).input@ == old(chain).input@,
        final (chain).resp.capacity == old(chain).resp.capacity,
        final (chain).data.capacity == old(chain).data.capacity,
        final (storage)@ =~= spec_process_store(old(chain).input@, *lun, old(storage)@),
        final (chain).data.data@ =~= old(chain).data.data@ + spec_process_data(
            old(chain).input@,
            *lun,
            old(storage)@,
            old(chain).data.spec_room(),
        ),
        RESP_SIZE <= old(chain).resp.spec_room() ==> final (chain).resp.data@ =~= old(
            chain,
        ).resp.data@ + spec_resp_bytes(
            spec_process_resp(
                old(chain).input@,
                *lun,
                old(storage)@,
                old(chain).data.spec_room(),
            ),
        ),
        RESP_SIZE > old(chain).resp.spec_room() ==> final (chain).resp == old(chain).resp,
        r == final (chain).resp.data@.len() + final (chain).data.data@.len(),
{
    let res = execute_request(chain, lun, storage);
    if let Err(err) = res {
        // The guest driver leaves at least the response structure's size of
        // device-writable space; if even that write fails, nothing more can
        // be conveyed and the chain is retired without a response.
        let resp = err.as_resp();
        let resp_bytes = resp.to_bytes();
        let _ = chain.resp.write_all(resp_bytes.as_slice());
    }
    chain.resp.bytes_written() + chain.data.bytes_written()
}

/// A retired descriptor chain, with the byte count reported to the guest.
#[derive(Debug)]
pub struct UsedChain {
    /// The retired chain.
    pub chain: DescriptorChain,
    /// Bytes of the chain's writable area that were filled.
    pub written: u32,
}

/// The transport queue, modelled at its interface boundary: available chains
/// are popped in order, processed chains are retired with their written byte
/// count, and each retirement is signalled with a device interrupt.
#[derive(Debug)]
pub struct VirtQueue {
    /// Chains the guest has submitted and the device has not yet popped.
    pub avail: Vec<DescriptorChain>,
    /// Chains the device has retired.
    pub used: Vec<UsedChain>,
    /// Number of interrupts raised.
    pub interrupts: u64,
}

impl VirtQueue {
    /// Builds a queue holding the given submissions and no completions.
    pub fn new(avail: Vec<DescriptorChain>) -> (r: VirtQueue)
        ensures
            r.avail@ == avail@,
            r.used@.len() == 0,
            r.interrupts == 0,
    {
        VirtQueue { avail, used: Vec::new(), interrupts: 0 }
    }

    /// Pops the next available chain, in submission order; nothing when the
    /// queue is drained.
    pub fn pop(&mut self) -> (r: Option<DescriptorChain>)
        ensures
            final (self).used@ == old(self).used@,
            final (self).interrupts == old(self).interrupts,
            old(self).avail@.len() == 0 ==> r is None && final (self).avail@ == old(self).avail@,
            old(self).avail@.len() > 0 ==> r is Some && r->0 == old(self).avail@[0] && final (self).avail@
                == old(self).avail@.skip(1),
    {
        if self.avail.len() == 0 {
            None
        } else {
            let chain = self.avail.remove(0);
            proof {
                assert(old(self).avail@.remove(0) =~= old(self).avail@.skip(1));
            }
            Some(chain)
        }
    }

    /// Retires a processed chain with the byte count reported to the guest.
    pub fn add_used(&mut self, chain: DescriptorChain, written: u32)
        ensures
            final (self).avail@ == old(self).avail@,
            final (self).interrupts == old(self).interrupts,
            final (self).used@.len() == old(self).used@.len() + 1,
            final (self).used@.last().chain == chain,
            final (self).used@.last().written == written,
            final (self).used@.take(old(self).used@.len() as int) == old(self).used@,
    {
        self.used.push(UsedChain { chain, written });
        proof {
            assert(final (self).used@.take(old(self).used@.len() as int) =~= old(self).used@);
        }
    }

    /// Raises the device interrupt.
    pub fn trigger_interrupt(&mut self)
        requires
            old(self).interrupts < u64::MAX,
        ensures
            final (self).avail@ == old(self).avail@,
            final (self).used@ == old(self).used@,
            final (self).interrupts == old(self).interrupts + 1,
    {
        self.interrupts = self.interrupts + 1;
    }
}

/// The byte count reported for a retired chain: the total bytes written into
/// its writable area, saturated at the wire field's range.
pub open spec fn spec_saturate_u32(n: int) -> u32
    recommends
        n >= 0,
{
    if n > u32::MAX {
        u32::MAX
    } else {
        n as u32
    }
}

/// How one popped chain looks once retired: its input kept, its capacities
/// kept, its data region grown by exactly the request's payload, its
/// response region grown by exactly the prescribed response when it has room
/// for one and untouched otherwise, and the reported byte count the
/// saturated total of both regions.
pub open spec fn spec_retired_chain(
    pre: DescriptorChain,
    done: UsedChain,
    lun: LogicalUnit,
    store: Seq<u8>,
) -> bool {
    &&& done.chain.input@ == pre.input@
    &&& done.chain.resp.capacity == pre.resp.capacity
    &&& done.chain.data.capacity == pre.data.capacity
    &&& done.chain.data.data@ == pre.data.data@ + spec_process_data(
        pre.input@,
        lun,
        store,
        pre.data.spec_room(),
    )
    &&& RESP_SIZE <= pre.resp.spec_room() ==> done.chain.resp.data@ == pre.resp.data@
        + spec_resp_bytes(spec_process_resp(pre.input@, lun, store, pre.data.spec_room()))
    &&& RESP_SIZE > pre.resp.spec_room() ==> done.chain.resp == pre.resp
    &&& done.written == spec_saturate_u32(
        done.chain.resp.data@.len() + done.chain.data.data@.len() as int,
    )
}

/// Processes one popped chain to completion and retires it: the response is
/// written into the chain, the chain is marked used with its written byte
/// count, and the device interrupt is raised — strictly in that order, and
/// exactly once per chain.
pub fn process_one_chain(
    queue: &mut VirtQueue,
    chain: DescriptorChain,
    lun: &LogicalUnit,
    storage: &mut StorageImage,
)
    requires
        chain.wf(),
        old(queue).interrupts < u64::MAX,
    ensures
        final (queue).avail@ == old(queue).avail@,
        final (queue).interrupts == old(queue).interrupts + 1,
        final (queue).used@.len() == old(queue).used@.len() + 1,
        final (queue).used@.take(old(queue).used@.len() as int) == old(queue).used@,
        spec_retired_chain(chain, final (queue).used@.last(), *lun, old(storage)@),
        final (storage)@ =~= spec_process_store(chain.input@, *lun, old(storage)@),
{
    let mut chain = chain;
    let len = process_one_request(&mut chain, lun, storage);
    let written: u32 = if len <= u32::MAX as usize {
        len as u32
    } else {
        u32::MAX
    };
    queue.add_used(chain, written);
    queue.trigger_interrupt();
}

/// The storage image after a whole sequence of requests, each applied in
/// turn: the fold of one request's storage effect over the submitted input
/// streams, left to right.
pub open spec fn spec_store_after(inputs: Seq<Seq<u8>>, lun: LogicalUnit, store: Seq<u8>) -> Seq<
    u8,
>
    decreases inputs.len(),
{
    if inputs.len() == 0 {
        store
    } else {
        spec_store_after(inputs.skip(1), lun, spec_process_store(inputs[0], lun, store))
    }
}

/// Folding one more request onto the end applies its storage effect to the
/// fold of the requests before it.
proof fn lemma_store_after_snoc(inputs: Seq<Seq<u8>>, x: Seq<u8>, lun: LogicalUnit, store: Seq<u8>)
    ensures
        spec_store_after(inputs.push(x), lun, store) == spec_process_store(
            x,
            lun,
            spec_store_after(inputs, lun, store),
        ),
    decreases inputs.len(),
{
    if inputs.len() == 0 {
        assert(inputs.push(x)[0] == x);
        assert(inputs.push(x).skip(1) =~= Seq::<Seq<u8>>::empty());
        assert(spec_store_after(inputs.push(x), lun, store) == spec_store_after(
            Seq::<Seq<u8>>::empty(),
            lun,
            spec_process_store(x, lun, store),
        ));
        assert(spec_store_after(Seq::<Seq<u8>>::empty(), lun, spec_process_store(x, lun, store))
            == spec_process_store(x, lun, store));
        assert(spec_store_after(inputs, lun, store) == store);
    } else {
        assert(inputs.push(x)[0] == inputs[0]);
        assert(inputs.push(x).skip(1) =~= inputs.skip(1).push(x));
        let store1 = spec_process_store(inputs[0], lun, store);
        assert(spec_store_after(inputs.push(x), lun, store) == spec_store_after(
            inputs.skip(1).push(x),
            lun,
            store1,
        ));
        lemma_store_after_snoc(inputs.skip(1), x, lun, store1);
        assert(spec_store_after(inputs, lun, store) == spec_store_after(
            inputs.skip(1),
            lun,
            store1,
        ));
    }
}

/// The submitted input streams of a row of chains.
pub open spec fn spec_chain_inputs(chains: Seq<DescriptorChain>) -> Seq<Seq<u8>> {
    chains.map_values(|c: DescriptorChain| c.input@)
}

/// Drains the request queue: pops every available chain and processes each
/// to completion.  Exactly as many chains are retired as were available, in
/// submission order, each marked used exactly once with exactly the chain
/// the request pipeline produces — response written, payload delivered,
/// byte count reported — against the storage image as the chains before it
/// left it, and exactly one interrupt is raised per retired chain; the final
/// image is the fold of every request's storage effect.  No chain is
/// skipped, dropped or completed twice.
pub fn handle_queue(queue: &mut VirtQueue, lun: &LogicalUnit, storage: &mut StorageImage)
    requires
        forall|i: int| 0 <= i < old(queue).avail@.len() ==> #[trigger] old(queue).avail@[i].wf(),
        old(queue).interrupts + old(queue).avail@.len() <= u64::MAX,
    ensures
        final (queue).avail@.len() == 0,
        final (queue).used@.len() == old(queue).used@.len() + old(queue).avail@.len(),
        final (queue).used@.take(old(queue).used@.len() as int) == old(queue).used@,
        final (queue).interrupts == old(queue).interrupts + old(queue).avail@.len(),
        final (storage)@ == spec_store_after(
            spec_chain_inputs(old(queue).avail@),
            *lun,
            old(storage)@,
        ),
        forall|i: int|
            0 <= i < old(queue).avail@.len() ==> spec_retired_chain(
                #[trigger] old(queue).avail@[i],
                final (queue).used@[old(queue).used@.len() + i],
                *lun,
                spec_store_after(
                    spec_chain_inputs(old(queue).avail@).take(i),
                    *lun,
                    old(storage)@,
                ),
            ),
{
    let ghost used0 = queue.used@;
    let ghost avail0 = queue.avail@;
    let ghost irq0 = queue.interrupts;
    let ghost store0 = storage@;
    let ghost inputs = spec_chain_inputs(avail0);
    loop
        invariant
            queue.used@.len() == used0.len() + (avail0.len() - queue.avail@.len()),
            queue.avail@.len() <= avail0.len(),
            queue.avail@ == avail0.skip(avail0.len() - queue.avail@.len()),
            queue.used@.take(used0.len() as int) == used0,
            queue.interrupts == irq0 + (avail0.len() - queue.avail@.len()),
            irq0 + avail0.len() <= u64::MAX,
            inputs == spec_chain_inputs(avail0),
            storage@ == spec_store_after(
                inputs.take(avail0.len() - queue.avail@.len()),
                *lun,
                store0,
            ),
            forall|i: int| 0 <= i < avail0.len() ==> #[trigger] avail0[i].wf(),
            forall|i: int|
                0 <= i < avail0.len() - queue.avail@.len() ==> #[trigger] spec_retired_chain(
                    avail0[i],
                    queue.used@[used0.len() + i],
                    *lun,
                    spec_store_after(inputs.take(i), *lun, store0),
                ),
        ensures
            queue.avail@.len() == 0,
        decreases queue.avail@.len(),
    {
        let ghost k = avail0.len() - queue.avail@.len();
        proof {
            assert(inputs.take(0) =~= Seq::<Seq<u8>>::empty());
        }
        let chain = match queue.pop() {
            Some(c) => c,
            None => {
                break ;
            },
        };
        proof {
            assert(avail0.skip(k) =~= queue.avail@.insert(0, chain));
            assert(chain == avail0[k]);
            assert(avail0.skip(k).skip(1) =~= avail0.skip(k + 1));
        }
        let ghost used_before = queue.used@;
        let ghost store_k = storage@;
        process_one_chain(queue, chain, lun, storage);
        proof {
            assert(inputs.take(k + 1) =~= inputs.take(k).push(inputs[k]));
            lemma_store_after_snoc(inputs.take(k), inputs[k], *lun, store0);
            assert(inputs[k] == chain.input@);
            assert(storage@ == spec_store_after(inputs.take(k + 1), *lun, store0));
            assert forall|i: int| 0 <= i < avail0.len() - queue.avail@.len() implies #[trigger] spec_retired_chain(
                avail0[i],
                queue.used@[used0.len() + i],
                *lun,
                spec_store_after(inputs.take(i), *lun, store0),
            ) by {
                if i < k {
                    assert(queue.used@[used0.len() + i] == queue.used@.take(
                        used_before.len() as int,
                    )[used0.len() + i]);
                } else {
                    assert(queue.used@[used0.len() + i] == queue.used@.last());
                    assert(spec_store_after(inputs.take(i), *lun, store0) == store_k);
                    assert(spec_retired_chain(chain, queue.used@.last(), *lun, store_k));
                }
            }
        }
    }
    proof {
        assert(inputs.take(avail0.len() as int) =~= inputs);
    }
}

/// One queue worker: the request queue it is bound to, the target descriptor
/// it answers for and the backing image it owns exclusively.
#[derive(Debug)]
pub struct Worker {
    /// The exposed storage target.
    pub target: LogicalUnit,
    /// The backing image, owned by this worker after activation.
    pub storage: StorageImage,
    /// The request queue.
    pub queue: VirtQueue,
}

impl Worker {
    /// One pass of the worker loop: drains every chain available on the
    /// bound request queue against this worker's own target and image, with
    /// the drain's full guarantee — one retirement and one interrupt per
    /// available chain, each retired chain exactly the pipeline's product
    /// against the image as the chains before it left it, and the image
    /// itself the fold of every request's storage effect.
    pub fn work(&mut self)
        requires
            forall|i: int|
                0 <= i < old(self).queue.avail@.len() ==> #[trigger] old(
                    self,
                ).queue.avail@[i].wf(),
            old(self).queue.interrupts + old(self).queue.avail@.len() <= u64::MAX,
        ensures
            final (self).target == old(self).target,
            final (self).queue.avail@.len() == 0,
            final (self).queue.used@.len() == old(self).queue.used@.len() + old(
                self,
            ).queue.avail@.len(),
            final (self).queue.used@.take(old(self).queue.used@.len() as int) == old(
                self,
            ).queue.used@,
            final (self).queue.interrupts == old(self).queue.interrupts + old(
                self,
            ).queue.avail@.len(),
            final (self).storage@ == spec_store_after(
                spec_chain_inputs(old(self).queue.avail@),
                old(self).target,
                old(self).storage@,
            ),
            forall|i: int|
                0 <= i < old(self).queue.avail@.len() ==> spec_retired_chain(
                    #[trigger] old(self).queue.avail@[i],
                    final (self).queue.used@[old(self).queue.used@.len() + i],
                    old(self).target,
                    spec_store_after(
                        spec_chain_inputs(old(self).queue.avail@).take(i),
                        old(self).target,
                        old(self).storage@,
                    ),
                ),
    {
        let target = self.target;
        handle_queue(&mut self.queue, &target, &mut self.storage);
    }
}

/// Law: a byte-exact, spec-valid command on the exposed target is never
/// refused as unsupported or invalid.  When the request structure is whole,
/// the LUN address selects the exposed target, the CDB decodes — so its
/// leading byte is in the supported set and the decoded command carries
/// exactly the fields of its format — no vital-product-data page or
/// descriptor-format sense was asked for, and the transfer's byte count is
/// addressable, then the response the pipeline prescribes carries neither
/// the invalid-command sense nor the invalid-field sense.
pub proof fn lemma_valid_command_not_refused(
    input: Seq<u8>,
    lun: LogicalUnit,
    store: Seq<u8>,
    room: int,
)
    requires
        input.len() >= REQ_SIZE,
        spec_is_lun0(input),
        spec_decode(input.subrange(CDB_OFFSET as int, REQ_SIZE as int)) is Ok,
        ({
            let cmd = spec_decode(input.subrange(CDB_OFFSET as int, REQ_SIZE as int))->Ok_0;
            &&& !(cmd matches Command::Inquiry { evpd: true, .. })
            &&& !(cmd matches Command::RequestSense { desc: true, .. })
            &&& crate::execute::spec_io_count(cmd, lun.block_size) <= usize::MAX
        }),
    ensures
        ({
            let v = spec_process_resp(input, lun, store, room);
            &&& crate::sense::spec_decode_fixed_sense(v.sense) != Some(
                crate::sense::Sense { key: crate::constants::ILLEGAL_REQUEST, asc: 0x20, ascq: 0 },
            )
            &&& crate::sense::spec_decode_fixed_sense(v.sense) != Some(
                crate::sense::Sense { key: crate::constants::ILLEGAL_REQUEST, asc: 0x24, ascq: 0 },
            )
        }),
{
    let cdb = input.subrange(CDB_OFFSET as int, REQ_SIZE as int);
    let cmd = spec_decode(cdb)->Ok_0;
    let outcome = spec_execute_outcome(cmd, lun, input.skip(REQ_SIZE as int), store, room);
    let v = spec_process_resp(input, lun, store, room);
    match outcome {
        Ok(_) => {
            assert(v == spec_ok_resp());
            assert(v.sense[0] == 0);
        },
        Err(e) => {
            assert(v == spec_error_resp(e));
            assert(!(e is Unsupported));
            assert(e != ExecuteError::InvalidField);
            match crate::response::spec_sense_of_error(e) {
                Some(s) => {
                    crate::sense::lemma_fixed_sense_round_trip(s);
                    assert(!(s.key == crate::constants::ILLEGAL_REQUEST && (s.asc == 0x20 || s.asc
                        == 0x24)));
                },
                None => {
                    assert(v.sense[0] == 0);
                },
            }
        },
    }
}

} // verus!
