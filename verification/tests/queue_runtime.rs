//! The completion-queue protocol and the operation runtime, driven against
//! a simulated kernel: chunks are supplied over the ring, elements decoded
//! at the progress offsets, completions delivered by cookie, chunks
//! surrendered and re-supplied — with sleeps, spurious wakeups, and futures
//! dropped before their completions.

use hel::Time;
use hel::executor::{CompletionOutcome, Executor, RuntimeFault};
use hel::handle::Handle;
use hel::queue::{
    DriveDecision, ElementHeader, EnqueueCommand, PROGRESS_DONE, PROGRESS_MASK, ProgressDecision,
    Queue, QueueElement, drive_result,
};
use hel::submission::{PollStep, SubmitCall, sleep_for, sleep_until};

/// What the simulated kernel does when the driver parks on a progress futex.
#[derive(Clone, Copy)]
enum Park {
    /// Wake without writing anything: a spurious, benign interruption of
    /// the wait, as a cancelled drive call produces.
    Spurious,
    /// Write the next pending completion, then wake.
    Deliver,
}

/// A simulated kernel sharing the queue memory: per-chunk payload buffers
/// and progress words, the index ring, and the head futex.
struct SimKernel {
    chunks: Vec<Vec<u8>>,
    progress: Vec<u32>,
    ring: Vec<u32>,
    head: u32,
    /// Chunks supplied by the user side, oldest first; the kernel writes
    /// into the front one.
    supplied: Vec<usize>,
    /// Completions waiting to be written: context and payload.
    pending: Vec<(u64, Vec<u8>)>,
    /// What to do on each park, front first; when empty, deliver.
    park_script: Vec<Park>,
    chunk_size: usize,
}

impl SimKernel {
    fn new(num_chunks: usize, ring_size: usize, chunk_size: usize) -> SimKernel {
        SimKernel {
            chunks: vec![vec![0; chunk_size]; num_chunks],
            progress: vec![0; num_chunks],
            ring: vec![0; ring_size],
            head: 0,
            supplied: Vec::new(),
            pending: Vec::new(),
            park_script: Vec::new(),
            chunk_size,
        }
    }

    /// Performs the shared-memory writes of one chunk supply and returns
    /// the old head futex word.
    fn apply_supply(&mut self, cmd: &EnqueueCommand) -> u32 {
        self.progress[cmd.chunk_index] = 0;
        self.ring[cmd.ring_slot] = cmd.ring_word;
        let old = self.head;
        self.head = cmd.new_head_word;
        self.supplied.push(cmd.chunk_index);
        old
    }

    /// Writes the next pending completion into the front chunk, marking
    /// exhausted chunks done along the way.  When no supplied chunk has
    /// room, the completion stays pending until more chunks arrive.
    fn deliver_next(&mut self) {
        let (context, payload) = self.pending[0].clone();
        loop {
            if self.supplied.is_empty() {
                return;
            }
            let chunk = self.supplied[0];
            let offset = (self.progress[chunk] & PROGRESS_MASK) as usize;
            let needed = 16 + payload.len();
            if offset + needed > self.chunk_size {
                // no room: finish the chunk and move to the next supplied one
                self.progress[chunk] = (self.progress[chunk] & PROGRESS_MASK) | PROGRESS_DONE;
                self.supplied.remove(0);
                continue;
            }
            let buffer = &mut self.chunks[chunk];
            buffer[offset..offset + 4].copy_from_slice(&(payload.len() as u32).to_le_bytes());
            buffer[offset + 4..offset + 8].copy_from_slice(&0u32.to_le_bytes());
            buffer[offset + 8..offset + 16].copy_from_slice(&context.to_le_bytes());
            buffer[offset + 16..offset + 16 + payload.len()].copy_from_slice(&payload);
            // the new progress word clears the waiters bit: the write wakes
            self.progress[chunk] = (offset + needed) as u32;
            self.pending.remove(0);
            return;
        }
    }

    fn on_park(&mut self) {
        let action = if self.park_script.is_empty() {
            Park::Deliver
        } else {
            self.park_script.remove(0)
        };
        match action {
            Park::Spurious => {},
            Park::Deliver => {
                if !self.pending.is_empty() {
                    self.deliver_next();
                }
            },
        }
    }
}

fn simple_record(code: u32) -> Vec<u8> {
    let mut v = code.to_le_bytes().to_vec();
    v.extend_from_slice(&[0; 4]);
    v
}

/// Supplies chunks until the queue wants none, performing the
/// shared-memory writes.
fn run_supplies(q: &mut Queue, sim: &mut SimKernel) {
    while let Some(cmd) = q.next_supply().unwrap() {
        let old = sim.apply_supply(&cmd);
        q.finish_supply(old);
    }
}

/// Blocks (in simulation) until one completion element is decoded.
fn wait_one(q: &mut Queue, sim: &mut SimKernel) -> QueueElement {
    loop {
        run_supplies(q, sim);
        let chunk = q.current_chunk();
        let word = sim.progress[chunk];
        match q.progress_decision(word) {
            ProgressDecision::NewData => {
                let offset = q.last_progress;
                let header = ElementHeader::parse(&sim.chunks[chunk][offset..offset + 16]);
                let payload =
                    sim.chunks[chunk][offset + 16..offset + 16 + header.length as usize].to_vec();
                return q.take_element(header, payload).unwrap();
            },
            ProgressDecision::ChunkDone => {
                if let Some(cmd) = q.surrender_current().unwrap() {
                    let old = sim.apply_supply(&cmd);
                    q.finish_supply(old);
                }
            },
            ProgressDecision::Park { expected: _ } => {
                sim.on_park();
            },
            ProgressDecision::AnnounceWaiters { expected, desired } => {
                if sim.progress[chunk] == expected {
                    sim.progress[chunk] = desired;
                    sim.on_park();
                }
            },
        }
    }
}

fn new_executor(num_chunks: usize, chunk_size: usize) -> (Executor, SimKernel) {
    let queue = Queue::new(9, num_chunks, chunk_size, Handle::from_raw(10)).unwrap();
    let sim = SimKernel::new(num_chunks, 1 << 9, chunk_size);
    let exec = Executor::new(queue, Handle::from_raw(11));
    (exec, sim)
}

/// Submits one sleep on the executor and hands the simulated kernel its
/// pending completion.
fn submit_sleep(exec: &mut Executor, sim: &mut SimKernel, call: SubmitCall) -> usize {
    match call {
        SubmitCall::AwaitClock { nanos: _ } => {},
        SubmitCall::SubmitActions { .. } => panic!("a clock submission was expected"),
    }
    let cookie = exec.ops.allocate();
    match exec.ops.poll(cookie) {
        PollStep::Submit => {},
        _ => panic!("a first poll must submit"),
    }
    exec.ops.submit_ok(cookie);
    sim.pending.push((cookie as u64, simple_record(0)));
    cookie
}

/// Waits for the completion of `cookie` and parses its simple result.
fn finish_sleep(exec: &mut Executor, sim: &mut SimKernel, cookie: usize) -> Result<(), hel::Error> {
    let element = wait_one(&mut exec.queue, sim);
    match exec.deliver_completion(element).unwrap() {
        CompletionOutcome::Woken { cookie: woken } => assert_eq!(woken, cookie),
        other => panic!("the sleeping task must be woken, got {:?}", other),
    }
    let mut element = match exec.ops.poll(cookie) {
        PollStep::Complete(element) => element,
        _ => panic!("the completion must be ready"),
    };
    let outcome = hel::action_result::SimpleResult::from_queue_element(&mut element).unwrap();
    exec.queue.release_element(element).unwrap();
    let leftover = exec.ops.drop_future(cookie);
    assert!(leftover.is_none());
    outcome
}

#[test]
fn sleep_once_completes_ok() {
    let (mut exec, mut sim) = new_executor(16, 4096);
    let call = sleep_for(Time::from_nanos(0), 1);
    let cookie = submit_sleep(&mut exec, &mut sim, call);
    assert_eq!(finish_sleep(&mut exec, &mut sim, cookie), Ok(()));
    // no operation state is left behind
    assert!(exec.ops.slots.iter().all(|s| s.is_none()));
}

#[test]
fn three_sequential_sleeps_complete_in_order() {
    let (mut exec, mut sim) = new_executor(16, 4096);
    for second in 1u64..=3 {
        let now = Time::from_nanos((second - 1) * 1_000_000_000);
        let call = sleep_for(now, 1_000_000_000);
        match call {
            SubmitCall::AwaitClock { nanos } => assert_eq!(nanos, second * 1_000_000_000),
            _ => panic!("a clock submission was expected"),
        }
        let cookie = submit_sleep(&mut exec, &mut sim, call);
        assert_eq!(finish_sleep(&mut exec, &mut sim, cookie), Ok(()));
    }
    assert!(exec.ops.slots.iter().all(|s| s.is_none()));
}

#[test]
fn cancelled_wait_is_retried_and_delivers_once() {
    let (mut exec, mut sim) = new_executor(16, 4096);
    // the first park is interrupted without a completion; the retry gets it
    sim.park_script = vec![Park::Spurious, Park::Deliver];
    let cookie = submit_sleep(&mut exec, &mut sim, sleep_until(Time::from_nanos(1)));
    assert_eq!(finish_sleep(&mut exec, &mut sim, cookie), Ok(()));
    // exactly one completion was written and none is left pending
    assert!(sim.pending.is_empty());
    assert!(exec.ops.slots.iter().all(|s| s.is_none()));
}

#[test]
fn dropped_future_is_drained_without_leak() {
    let (mut exec, mut sim) = new_executor(16, 4096);
    let cookie = submit_sleep(&mut exec, &mut sim, sleep_until(Time::from_nanos(5)));
    // the future goes away before its completion arrives
    let leftover = exec.ops.drop_future(cookie);
    assert!(leftover.is_none());
    // the completion still arrives and is drained quietly
    let element = wait_one(&mut exec.queue, &mut sim);
    match exec.deliver_completion(element).unwrap() {
        CompletionOutcome::Drained { cookie: drained, resupply: _ } => {
            assert_eq!(drained, cookie);
        },
        other => panic!("the orphan completion must be drained, got {:?}", other),
    }
    // the state was destroyed exactly once: nothing is live
    assert!(exec.ops.slots.iter().all(|s| s.is_none()));
}

#[test]
fn second_delivery_of_a_cookie_is_refused() {
    let (mut exec, mut sim) = new_executor(16, 4096);
    let cookie = submit_sleep(&mut exec, &mut sim, sleep_until(Time::from_nanos(9)));
    let element = wait_one(&mut exec.queue, &mut sim);
    match exec.deliver_completion(element).unwrap() {
        CompletionOutcome::Woken { .. } => {},
        other => panic!("the sleeping task must be woken, got {:?}", other),
    }
    // a duplicate completion for the same cookie no longer names an
    // operation with an outstanding kernel share
    let duplicate = QueueElement { chunk_index: 0, context: cookie as u64, data: vec![], offset: 0 };
    assert_eq!(
        exec.deliver_completion(duplicate),
        Err(RuntimeFault::BadCookie)
    );
}

#[test]
fn chunk_is_resupplied_only_after_its_last_element_is_released() {
    // chunks of 40 bytes hold one 24-byte element each, so every element
    // exhausts its chunk
    let (mut exec, mut sim) = new_executor(4, 40);
    let first = submit_sleep(&mut exec, &mut sim, sleep_until(Time::from_nanos(1)));
    let second = submit_sleep(&mut exec, &mut sim, sleep_until(Time::from_nanos(2)));
    let element_one = wait_one(&mut exec.queue, &mut sim);
    assert_eq!(element_one.context(), first as u64);
    let chunk_one = element_one.chunk_index;
    // progress within the chunk moved monotonically and has not reset
    assert_eq!(exec.queue.last_progress, 24);
    let element_two = wait_one(&mut exec.queue, &mut sim);
    assert_eq!(element_two.context(), second as u64);
    // the first chunk was surrendered for the second element, so progress
    // reset to the new chunk's start before advancing
    assert_ne!(element_two.chunk_index, chunk_one);
    // the surrendered chunk still carries the first element's reference:
    // it was not handed back to the kernel
    assert_eq!(exec.queue.ref_counts[chunk_one], 1);
    // releasing the last element hands the chunk back
    let resupply = exec.queue.release_element(element_one).unwrap();
    let cmd = resupply.expect("the last release must resupply the chunk");
    assert_eq!(cmd.chunk_index, chunk_one);
    assert_eq!(exec.queue.ref_counts[chunk_one], 1);
    let old = sim.apply_supply(&cmd);
    exec.queue.finish_supply(old);
    // the second chunk is still the current one: its supply reference
    // stays, so releasing its element owes the kernel nothing yet
    let chunk_two = element_two.chunk_index;
    let resupply_two = exec.queue.release_element(element_two).unwrap();
    assert!(resupply_two.is_none());
    assert_eq!(exec.queue.ref_counts[chunk_two], 1);
}

#[test]
fn progress_resets_only_on_surrender() {
    let (mut exec, mut sim) = new_executor(4, 4096);
    let mut last = 0usize;
    for step in 1u64..=3 {
        let cookie = submit_sleep(&mut exec, &mut sim, sleep_until(Time::from_nanos(step)));
        let element = wait_one(&mut exec.queue, &mut sim);
        // within one chunk's residency the progress offset only grows
        assert!(exec.queue.last_progress > last);
        last = exec.queue.last_progress;
        match exec.deliver_completion(element).unwrap() {
            CompletionOutcome::Woken { .. } => {},
            other => panic!("the sleeping task must be woken, got {:?}", other),
        }
        let mut element = match exec.ops.poll(cookie) {
            PollStep::Complete(element) => element,
            _ => panic!("the completion must be ready"),
        };
        let outcome =
            hel::action_result::SimpleResult::from_queue_element(&mut element).unwrap();
        assert_eq!(outcome, Ok(()));
        exec.queue.release_element(element).unwrap();
        exec.ops.drop_future(cookie);
    }
}

#[test]
fn failed_submission_reclaims_the_leaked_share() {
    let (mut exec, _sim) = new_executor(16, 4096);
    let cookie = exec.ops.allocate();
    match exec.ops.poll(cookie) {
        PollStep::Submit => {},
        _ => panic!("a first poll must submit"),
    }
    // the kernel rejected the submission: the share comes back and the
    // future reports the error
    exec.ops.submit_failed(cookie);
    let leftover = exec.ops.drop_future(cookie);
    assert!(leftover.is_none());
    assert!(exec.ops.slots.iter().all(|s| s.is_none()));
}

#[test]
fn rejected_geometries_report_illegal_arguments() {
    // ring shift too large
    assert!(Queue::new(17, 16, 4096, Handle::from_raw(1)).is_err());
    // no chunks at all
    assert!(Queue::new(9, 0, 4096, Handle::from_raw(1)).is_err());
    // more chunks than ring slots
    assert!(Queue::new(2, 5, 4096, Handle::from_raw(1)).is_err());
    // chunk too small for even one element header
    assert!(Queue::new(9, 16, 8, Handle::from_raw(1)).is_err());
    // chunk size past the progress mask
    assert!(Queue::new(9, 16, 0x100_0000, Handle::from_raw(1)).is_err());
    match Queue::new(17, 16, 4096, Handle::from_raw(1)) {
        Err(e) => assert_eq!(e, hel::Error::IllegalArgs),
        Ok(_) => panic!("an invalid geometry must be rejected"),
    }
}

#[test]
fn queue_geometry_follows_the_layout_rules() {
    let q = Queue::new(9, 16, 4096, Handle::from_raw(1)).unwrap();
    // header plus a 512-entry index ring, aligned to the cache line
    assert_eq!(q.chunks_offset, 2112);
    // chunk header plus payload, aligned to the cache line
    assert_eq!(q.reserved_per_chunk, 4160);
    // the whole region is page aligned
    assert_eq!(q.mapping_length, (2112 + 16 * 4160 + 4095) / 4096 * 4096);
    assert_eq!(q.chunk_byte_offset(0), 2112);
    assert_eq!(q.chunk_byte_offset(1), 2112 + 4160);
    assert_eq!(q.buffer_byte_offset(0), 2112 + 8);
}

#[test]
fn empty_payload_element_advances_by_its_header() {
    let (mut exec, mut sim) = new_executor(16, 4096);
    let cookie = exec.ops.allocate();
    match exec.ops.poll(cookie) {
        PollStep::Submit => {},
        _ => panic!("a first poll must submit"),
    }
    exec.ops.submit_ok(cookie);
    sim.pending.push((cookie as u64, vec![]));
    let element = wait_one(&mut exec.queue, &mut sim);
    assert_eq!(element.context(), cookie as u64);
    assert_eq!(element.remaining(), 0);
    assert_eq!(exec.queue.last_progress, 16);
    exec.queue.release_element(element).unwrap();
}

#[test]
fn completion_before_the_waker_is_kept_quietly() {
    let (mut exec, _sim) = new_executor(16, 4096);
    let cookie = exec.ops.allocate();
    match exec.ops.poll(cookie) {
        PollStep::Submit => {},
        _ => panic!("a first poll must submit"),
    }
    // the completion overtakes the submit bookkeeping: no waker is
    // installed yet, so there is nobody to signal — and nothing to panic
    let element = QueueElement { chunk_index: 0, context: cookie as u64, data: vec![], offset: 0 };
    match exec.ops.deliver(cookie, element) {
        hel::submission::DeliverOutcome::Quiet => {},
        _ => panic!("a completion without a waker is kept quietly"),
    }
    // the next poll finds the stored element
    match exec.ops.poll(cookie) {
        PollStep::Complete(element) => assert_eq!(element.context(), cookie as u64),
        _ => panic!("the stored completion must be found"),
    }
}

#[test]
fn park_status_triage_retries_cancellation_only() {
    // a successful wait and a cancelled one both continue the loop
    assert_eq!(drive_result(0), DriveDecision::Retry);
    assert_eq!(drive_result(7), DriveDecision::Retry);
    // any other failure propagates
    assert_eq!(drive_result(16), DriveDecision::Fail(hel::Error::Fault));
    assert_eq!(drive_result(12), DriveDecision::Fail(hel::Error::LaneShutdown));
    // a status outside the known set is reported distinctly
    assert_eq!(drive_result(99), DriveDecision::Corrupt(99));
}
