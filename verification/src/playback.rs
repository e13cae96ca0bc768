//! Decisions of the playback stage: how the samples of decoded frames are
//! moved into the output buffers that the audio device asks to be filled,
//! and how long the playback thread rests between two calls of the player.
//!
//! Samples are interleaved: a sample group holds one sample per channel.
//! Frames and device buffers are transferred group by group. When the
//! frames have as many channels as the device, each group is copied; when
//! they differ, each source group is mixed down to one mono sample that is
//! written to every channel of one device group. A trailing partial group
//! of the frames is dropped with them.

use vstd::prelude::*;

verus! {

/// Time between two calls of the player, in nanoseconds (100 ms).
pub const PLAY_INTERVAL_NANOS: u64 = 100_000_000;

/// One step of filling an output buffer from the current frames.
#[derive(Debug, Clone, Copy, PartialEq, Eq, Structural)]
pub struct TransferPlan {
    /// Number of sample groups transferred.
    pub groups: usize,
    /// First sample of the frames to read.
    pub source_start: usize,
    /// Number of samples of the frames read: `groups` groups of the frames'
    /// channel count.
    pub source_count: usize,
    /// First sample of the output buffer to write.
    pub target_start: usize,
    /// Number of samples of the output buffer written: `groups` groups of
    /// the device's channel count.
    pub target_count: usize,
    /// The frames and the device differ in channel count: each source group
    /// is mixed down to its mean, which is written to every channel of the
    /// target group, instead of the groups being copied sample by sample.
    pub mix_to_mono: bool,
    /// Offset into the frames after this step.
    pub next_frames_offset: usize,
    /// Offset into the output buffer after this step.
    pub next_data_offset: usize,
    /// Every complete sample group of the frames has been consumed after this
    /// step: the frames are dropped (with a trailing partial group, if any)
    /// and the next ones are taken. Frames without channels hold no complete
    /// group and are dropped at once.
    pub release_frames: bool,
}

/// The smaller of two numbers.
pub open spec fn min_of(a: int, b: int) -> int {
    if a <= b { a } else { b }
}

/// Number of samples of `samples` interleaved samples of `channels`
/// channels that lie in complete groups.
pub open spec fn whole_samples(samples: int, channels: int) -> int {
    if channels <= 0 { 0 } else { samples - samples % channels }
}

/// Number of complete groups left in frames read up to `offset`.
pub open spec fn groups_left(samples: int, channels: int, offset: int) -> int {
    if channels <= 0 || offset >= whole_samples(samples, channels) {
        0
    } else {
        (whole_samples(samples, channels) - offset) / channels
    }
}

/// The step that fills an output buffer of `data_len` samples with
/// `data_channels` channels, already filled up to `data_offset`, from
/// frames of `frame_samples` samples with `frame_channels` channels, read
/// up to `frames_offset`: as many groups as both have left.
pub open spec fn plan_of(
    frame_samples: int,
    frame_channels: int,
    frames_offset: int,
    data_len: int,
    data_offset: int,
    data_channels: int,
) -> TransferPlan {
    let groups = min_of(
        groups_left(frame_samples, frame_channels, frames_offset),
        (data_len - data_offset) / data_channels,
    );
    TransferPlan {
        groups: groups as usize,
        source_start: frames_offset as usize,
        source_count: (groups * frame_channels) as usize,
        target_start: data_offset as usize,
        target_count: (groups * data_channels) as usize,
        mix_to_mono: data_channels != frame_channels,
        next_frames_offset: (frames_offset + groups * frame_channels) as usize,
        next_data_offset: (data_offset + groups * data_channels) as usize,
        release_frames: frames_offset + groups * frame_channels >= whole_samples(frame_samples, frame_channels),
    }
}

/// Whether an output buffer of `data_len` samples holds whole sample groups
/// of `data_channels` channels each; the device callback accepts no other.
pub fn buffer_is_whole_frames(data_len: usize, data_channels: usize) -> (ok: bool)
    ensures
        ok == (data_channels > 0 && data_len % data_channels == 0),
{
    data_channels > 0 && data_len % data_channels == 0
}

proof fn lemma_div_times_le(x: int, c: int)
    requires
        x >= 0,
        c > 0,
    ensures
        0 <= (x / c) * c <= x,
        x % c <= x,
        x - x % c == (x / c) * c,
{
    vstd::arithmetic::div_mod::lemma_fundamental_div_mod(x, c);
    assert(0 <= (x / c) * c <= x && x - x % c == (x / c) * c) by (nonlinear_arith)
        requires
            x == c * (x / c) + x % c,
            0 <= x % c < c,
            x >= 0,
            c > 0,
    ;
}

proof fn lemma_le_mul(a: int, b: int, c: int)
    requires
        0 <= a <= b,
        c >= 0,
    ensures
        a * c <= b * c,
{
    assert(a * c <= b * c) by (nonlinear_arith)
        requires
            0 <= a <= b,
            c >= 0,
    ;
}

/// Plans the next step of filling an output buffer from the current frames
/// (see `plan_of`). The step stays within the frames and the buffer.
pub fn plan_transfer(
    frame_samples: usize,
    frame_channels: usize,
    frames_offset: usize,
    data_len: usize,
    data_offset: usize,
    data_channels: usize,
) -> (p: TransferPlan)
    requires
        data_channels > 0,
        frames_offset <= frame_samples,
        data_offset <= data_len,
    ensures
        p == plan_of(
            frame_samples as int,
            frame_channels as int,
            frames_offset as int,
            data_len as int,
            data_offset as int,
            data_channels as int,
        ),
        p.source_start + p.source_count <= frame_samples,
        p.target_start + p.target_count <= data_len,
        p.source_start == frames_offset,
        p.target_start == data_offset,
        p.source_count == p.groups * frame_channels,
        p.target_count == p.groups * data_channels,
        p.next_frames_offset == p.source_start + p.source_count,
        p.next_data_offset == p.target_start + p.target_count,
        p.mix_to_mono == (data_channels != frame_channels),
{
    let ghost fs = frame_samples as int;
    let ghost fc = frame_channels as int;
    let whole: usize = if frame_channels == 0 {
        0
    } else {
        proof { lemma_div_times_le(fs, fc); }
        frame_samples - frame_samples % frame_channels
    };
    let source_groups: usize = if frame_channels == 0 || frames_offset >= whole {
        0
    } else {
        (whole - frames_offset) / frame_channels
    };
    let target_groups: usize = (data_len - data_offset) / data_channels;
    let groups: usize = if source_groups <= target_groups { source_groups } else { target_groups };
    proof {
        let dl = (data_len - data_offset) as int;
        let dc = data_channels as int;
        lemma_div_times_le(dl, dc);
        lemma_le_mul(groups as int, target_groups as int, dc);
        if frame_channels > 0 && frames_offset < whole {
            lemma_div_times_le((whole - frames_offset) as int, fc);
            lemma_le_mul(groups as int, source_groups as int, fc);
        } else {
            assert(groups == 0);
            assert(groups * fc == 0);
        }
    }
    let source_count = groups * frame_channels;
    let target_count = groups * data_channels;
    TransferPlan {
        groups,
        source_start: frames_offset,
        source_count,
        target_start: data_offset,
        target_count,
        mix_to_mono: data_channels != frame_channels,
        next_frames_offset: frames_offset + source_count,
        next_data_offset: data_offset + target_count,
        release_frames: frames_offset + source_count >= whole,
    }
}

/// Whatever the two channel counts (copying or mixing), a step consumes
/// exactly the source groups it transfers and moves past exactly the device
/// samples it writes: one source group of the frames' channel count per
/// device group of the device's channel count. The frames offset and the
/// buffer offset move by `groups` whole groups each, stay within the frames
/// and the buffer, and a step never moves more groups than either has left.
pub proof fn lemma_step_moves_what_it_transfers(
    frame_samples: usize,
    frame_channels: usize,
    frames_offset: usize,
    data_len: usize,
    data_offset: usize,
    data_channels: usize,
)
    requires
        data_channels > 0,
        frames_offset <= frame_samples,
        data_offset <= data_len,
    ensures
        ({
            let p = plan_of(
                frame_samples as int,
                frame_channels as int,
                frames_offset as int,
                data_len as int,
                data_offset as int,
                data_channels as int,
            );
            &&& p.source_start == frames_offset
            &&& p.target_start == data_offset
            &&& p.source_count == p.groups * frame_channels
            &&& p.target_count == p.groups * data_channels
            &&& p.next_frames_offset == frames_offset + p.groups * frame_channels
            &&& p.next_data_offset == data_offset + p.groups * data_channels
            &&& p.next_frames_offset <= frame_samples
            &&& p.next_data_offset <= data_len
            &&& p.mix_to_mono == (data_channels != frame_channels)
        }),
{
    let fs = frame_samples as int;
    let fc = frame_channels as int;
    let fo = frames_offset as int;
    let dl = (data_len - data_offset) as int;
    let dc = data_channels as int;
    let gl = groups_left(fs, fc, fo);
    let m = min_of(gl, dl / dc);
    lemma_div_times_le(dl, dc);
    assert(m <= dl / dc);
    lemma_le_mul(m, dl / dc, dc);
    if fc > 0 && fo < whole_samples(fs, fc) {
        lemma_div_times_le(fs, fc);
        lemma_div_times_le(whole_samples(fs, fc) - fo, fc);
        lemma_le_mul(m, gl, fc);
        assert(m * fc <= fs - fo);
    } else {
        assert(gl == 0);
        assert(m == 0);
        assert(m * fc == 0) by (nonlinear_arith)
            requires
                m == 0,
        ;
    }
    assert(0 <= m * fc && 0 <= m * dc) by (nonlinear_arith)
        requires
            m >= 0,
            fc >= 0,
            dc >= 0,
    ;
    assert(m <= dl) by (nonlinear_arith)
        requires
            m * dc <= dl,
            dc >= 1,
            m >= 0,
    ;
}

/// When the buffer still has room for a group, every step makes progress:
/// it transfers at least one group or releases the frames. (Offsets into
/// frames are whole groups, as every step moves them by whole groups.)
pub proof fn lemma_transfer_makes_progress(
    frame_samples: usize,
    frame_channels: usize,
    frames_offset: usize,
    data_len: usize,
    data_offset: usize,
    data_channels: usize,
)
    requires
        data_channels > 0,
        frames_offset <= frame_samples,
        frame_channels > 0 ==> frames_offset % frame_channels == 0,
        data_offset + data_channels <= data_len,
    ensures
        ({
            let p = plan_of(
                frame_samples as int,
                frame_channels as int,
                frames_offset as int,
                data_len as int,
                data_offset as int,
                data_channels as int,
            );
            p.groups > 0 || p.release_frames
        }),
{
    let dl = (data_len - data_offset) as int;
    let dc = data_channels as int;
    assert(dl / dc >= 1) by (nonlinear_arith)
        requires
            dl >= dc,
            dc > 0,
    ;
    let fs = frame_samples as int;
    let fc = frame_channels as int;
    let w = whole_samples(fs, fc);
    if fc > 0 && frames_offset < w {
        let o = frames_offset as int;
        lemma_div_times_le(fs, fc);
        vstd::arithmetic::div_mod::lemma_mod_multiples_basic(fs / fc, fc);
        assert(w % fc == 0);
        lemma_aligned_gap(w, o, fc);
        assert((w - o) / fc >= 1) by (nonlinear_arith)
            requires
                w - o >= fc,
                fc > 0,
        ;
    }
}

/// Offsets into frames are multiples of the channel count, so below the end
/// of the complete groups at least one group is left.
proof fn lemma_aligned_gap(w: int, o: int, c: int)
    requires
        c > 0,
        0 <= o < w,
        w % c == 0,
        o % c == 0,
    ensures
        w - o >= c,
{
    vstd::arithmetic::div_mod::lemma_fundamental_div_mod(w, c);
    vstd::arithmetic::div_mod::lemma_fundamental_div_mod(o, c);
    assert(w - o >= c) by (nonlinear_arith)
        requires
            w == c * (w / c),
            o == c * (o / c),
            o < w,
            c > 0,
    ;
}

/// The samples played so far from a queue of frames (each a sequence of
/// interleaved samples), when the frames at `index` are read up to
/// `offset`: all earlier frames, then the start of the current ones.
pub open spec fn played<T>(queue: Seq<Seq<T>>, index: int, offset: int) -> Seq<T> {
    queue.take(index).flatten() + queue[index].take(offset)
}

/// Gapless playback. When frames have as many channels as the device and
/// hold whole groups, a step copies exactly the samples that follow those
/// already played, in order, to the buffer positions that follow those
/// already written; after a release, playback continues at the start of
/// the next frames with nothing skipped or repeated.
pub proof fn lemma_transfer_is_gapless<T>(
    queue: Seq<Seq<T>>,
    index: int,
    frames_offset: usize,
    data_len: usize,
    data_offset: usize,
    channels: usize,
)
    requires
        0 <= index < queue.len(),
        queue[index].len() <= usize::MAX,
        channels > 0,
        (queue[index].len() as int) % (channels as int) == 0,
        frames_offset <= queue[index].len(),
        data_offset <= data_len,
    ensures
        ({
            let p = plan_of(
                queue[index].len() as int,
                channels as int,
                frames_offset as int,
                data_len as int,
                data_offset as int,
                channels as int,
            );
            &&& !p.mix_to_mono
            &&& p.source_count == p.target_count
            &&& p.next_data_offset == data_offset + p.target_count
            &&& played(queue, index, p.next_frames_offset as int)
                == played(queue, index, frames_offset as int)
                    + queue[index].subrange(frames_offset as int, p.next_frames_offset as int)
            &&& p.release_frames ==> p.next_frames_offset == queue[index].len()
            &&& p.release_frames ==> played(queue, index + 1, 0)
                == played(queue, index, p.next_frames_offset as int)
        }),
{
    let len = queue[index].len() as int;
    let c = channels as int;
    let o = frames_offset as int;
    let p = plan_of(len, c, o, data_len as int, data_offset as int, c);
    lemma_div_times_le(len, c);
    assert(whole_samples(len, c) == len);
    let gl = groups_left(len, c, o);
    let dl = data_len as int - data_offset as int;
    lemma_div_times_le(dl, c);
    if o < len {
        lemma_div_times_le(len - o, c);
    } else {
        assert(gl == 0);
    }
    let m = min_of(gl, dl / c);
    assert(0 <= m <= gl);
    assert(gl * c <= len - o);
    assert(gl <= len) by (nonlinear_arith)
        requires
            gl * c <= len - o,
            c >= 1,
            gl >= 0,
            o >= 0,
    ;
    let g = p.groups as int;
    assert(g == m);
    lemma_le_mul(g, gl, c);
    lemma_le_mul(g, dl / c, c);
    assert(0 <= g * c) by (nonlinear_arith)
        requires
            g >= 0,
            c > 0,
    ;
    assert(o + g * c <= len);
    let n = p.next_frames_offset as int;
    assert(n == o + g * c);
    let cur = queue[index];
    assert(cur.take(n) =~= cur.take(o) + cur.subrange(o, n));
    if p.release_frames {
        assert(n == len);
        assert(queue.take(index + 1) =~= queue.take(index).push(cur));
        queue.take(index).lemma_flatten_push(cur);
        assert(cur.take(n) =~= cur);
        assert(queue[index as int + 1].take(0) =~= Seq::<T>::empty());
        assert(played(queue, index + 1, 0) =~= queue.take(index).flatten() + cur);
    }
}

/// Number of groups the next step transfers from frames of `len` samples
/// read up to `offset`, into a buffer with `room` samples left, when frames
/// and device both have `channels` channels (as in `plan_of`).
pub open spec fn step_groups(len: nat, channels: nat, offset: nat, room: nat) -> nat {
    min_of(groups_left(len as int, channels as int, offset as int), room as int / channels as int) as nat
}

/// What successive steps write into a buffer with `room` samples left, when
/// every frames of `queue` have as many channels (`channels`) as the device
/// and playback stands at `offset` into the frames at `index`: the samples
/// written, in order, and the position in the queue where the steps stop
/// (the buffer is full, or the queue is used up).
pub open spec fn fill_run<T>(queue: Seq<Seq<T>>, index: nat, offset: nat, room: nat, channels: nat) -> (Seq<T>, nat, nat)
    decreases room, queue.len() - index,
{
    if index >= queue.len() || channels == 0 || room < channels || offset > queue[index as int].len() {
        (Seq::empty(), index, offset)
    } else {
        let len = queue[index as int].len();
        let g = step_groups(len, channels, offset, room);
        proof {
            lemma_step_groups_fit(len, channels, offset, room);
        }
        let next = offset + g * channels;
        let w = queue[index as int].subrange(offset as int, next as int);
        if next >= whole_samples(len as int, channels as int) {
            let r = fill_run(queue, index + 1, 0, (room - g * channels) as nat, channels);
            (w + r.0, r.1, r.2)
        } else if g > 0 {
            let r = fill_run(queue, index, next as nat, (room - g * channels) as nat, channels);
            (w + r.0, r.1, r.2)
        } else {
            (Seq::empty(), index, offset)
        }
    }
}

/// The groups of a step fit the buffer, and a step with groups moves on.
pub proof fn lemma_step_groups_fit(len: nat, channels: nat, offset: nat, room: nat)
    requires
        channels > 0,
        offset <= len,
    ensures
        step_groups(len, channels, offset, room) * channels <= room,
        offset + step_groups(len, channels, offset, room) * channels <= len,
        step_groups(len, channels, offset, room) > 0 ==> step_groups(len, channels, offset, room) * channels > 0,
{
    let c = channels as int;
    let g = step_groups(len, channels, offset, room) as int;
    let gl = groups_left(len as int, c, offset as int);
    lemma_div_times_le(room as int, c);
    lemma_div_times_le(len as int, c);
    if offset < whole_samples(len as int, c) {
        lemma_div_times_le(whole_samples(len as int, c) - offset, c);
    }
    assert(0 <= g <= gl);
    assert(g <= room as int / c);
    lemma_le_mul(g, room as int / c, c);
    lemma_le_mul(g, gl, c);
    assert(g > 0 ==> g * c > 0) by (nonlinear_arith)
        requires
            c > 0,
            g >= 0,
    ;
}

/// The steps of `fill_run` are the plans that `plan_transfer` makes: for a
/// buffer filled up to `data_offset`, a step transfers the same groups,
/// reaches the same offset into the frames and releases them alike.
pub proof fn lemma_fill_run_follows_plan(
    frame_samples: usize,
    channels: usize,
    frames_offset: usize,
    data_len: usize,
    data_offset: usize,
)
    requires
        channels > 0,
        frames_offset <= frame_samples,
        data_offset <= data_len,
    ensures
        ({
            let p = plan_of(
                frame_samples as int,
                channels as int,
                frames_offset as int,
                data_len as int,
                data_offset as int,
                channels as int,
            );
            let g = step_groups(frame_samples as nat, channels as nat, frames_offset as nat, (data_len - data_offset) as nat);
            &&& p.groups == g
            &&& p.next_frames_offset == frames_offset + g * channels
            &&& p.next_data_offset == data_offset + g * channels
            &&& p.release_frames == (frames_offset + g * channels >= whole_samples(frame_samples as int, channels as int))
        }),
{
    let room = (data_len - data_offset) as nat;
    lemma_step_groups_fit(frame_samples as nat, channels as nat, frames_offset as nat, room);
    let g = step_groups(frame_samples as nat, channels as nat, frames_offset as nat, room);
    assert(g <= frame_samples) by (nonlinear_arith)
        requires
            frames_offset + g * channels <= frame_samples,
            channels >= 1,
    ;
}

/// Gapless playback over successive steps: when every frames of the queue
/// have as many channels as the device and hold whole groups, the samples
/// that the steps write, in order, are exactly the samples that follow
/// those already played: each sample is played once, in queue order, with
/// no gap between frames. The buffer is filled completely unless the queue
/// runs out, and the steps stop at an aligned offset within the queue, from
/// which the next buffer goes on (the law applies to it again).
pub proof fn lemma_fill_run_is_gapless<T>(queue: Seq<Seq<T>>, index: nat, offset: nat, room: nat, channels: nat)
    requires
        index < queue.len(),
        channels > 0,
        forall|i: int| 0 <= i < queue.len() ==> #[trigger] queue[i].len() % channels == 0,
        offset <= queue[index as int].len(),
        offset % channels == 0,
        room % channels == 0,
    ensures
        ({
            let r = fill_run(queue, index, offset, room, channels);
            &&& played(queue, r.1 as int, r.2 as int) == played(queue, index as int, offset as int) + r.0
            &&& r.0.len() == room || r.1 == queue.len()
            &&& index <= r.1 <= queue.len()
            &&& r.2 % channels == 0
            &&& r.1 < queue.len() ==> r.2 <= queue[r.1 as int].len()
            &&& r.1 == queue.len() ==> r.2 == 0
        }),
    decreases room, queue.len() - index,
{
    let c = channels as int;
    let len = queue[index as int].len();
    if room < channels {
        assert(room == 0) by (nonlinear_arith)
            requires
                room % channels == 0,
                room < channels,
                channels > 0,
        ;
        assert(played(queue, index as int, offset as int) + Seq::<T>::empty() =~= played(queue, index as int, offset as int));
        return;
    }
    let g = step_groups(len, channels, offset, room);
    lemma_step_groups_fit(len, channels, offset, room);
    lemma_div_times_le(len as int, c);
    assert(whole_samples(len as int, c) == len);
    let next = offset + g * channels;
    let w = queue[index as int].subrange(offset as int, next as int);
    let cur = queue[index as int];
    assert(cur.take(next as int) =~= cur.take(offset as int) + w);
    let rest = (room - g * channels) as nat;
    assert(rest % channels == 0) by {
        lemma_mod_sub_multiple(room as int, g as int, c);
    }
    if next >= len {
        assert(next == len);
        assert(queue.take(index as int + 1) =~= queue.take(index as int).push(cur));
        queue.take(index as int).lemma_flatten_push(cur);
        assert(cur.take(next as int) =~= cur);
        if index + 1 < queue.len() {
            assert(queue[index as int + 1].take(0) =~= Seq::<T>::empty());
            assert(played(queue, index as int + 1, 0) =~= played(queue, index as int, next as int));
            lemma_fill_run_is_gapless(queue, index + 1, 0, rest, channels);
            let r = fill_run(queue, index + 1, 0, rest, channels);
            assert(played(queue, r.1 as int, r.2 as int) =~= played(queue, index as int, offset as int) + (w + r.0));
        } else {
            assert(fill_run(queue, index + 1, 0, rest, channels) == (Seq::<T>::empty(), (index + 1) as nat, 0nat));
            assert(played(queue, (index + 1) as int, 0) =~= played(queue, index as int, next as int));
            assert(played(queue, index as int, offset as int) + (w + Seq::<T>::empty()) =~= played(queue, index as int, offset as int) + w);
        }
    } else {
        // below the end of whole groups, an aligned offset leaves a group and
        // the room leaves a group, so the step moves on
        lemma_aligned_gap(len as int, offset as int, c);
        assert((len - offset) as int / c >= 1) by (nonlinear_arith)
            requires
                len - offset >= c,
                c > 0,
        ;
        assert(room as int / c >= 1) by (nonlinear_arith)
            requires
                room >= c,
                c > 0,
        ;
        assert(g > 0);
        assert(next % channels == 0) by {
            lemma_mod_add_multiple(offset as int, g as int, c);
        }
        lemma_fill_run_is_gapless(queue, index, next as nat, rest, channels);
        let r = fill_run(queue, index, next as nat, rest, channels);
        assert(played(queue, r.1 as int, r.2 as int) =~= played(queue, index as int, offset as int) + (w + r.0));
    }
}

/// What successive buffers with `rooms` samples each receive from the
/// queue (see `fill_run`), one after the other: all samples written, in
/// order, and where playback then stands.
pub open spec fn fill_buffers<T>(queue: Seq<Seq<T>>, index: nat, offset: nat, rooms: Seq<nat>, channels: nat) -> (Seq<T>, nat, nat)
    decreases rooms.len(),
{
    if rooms.len() == 0 {
        (Seq::empty(), index, offset)
    } else {
        let r = fill_run(queue, index, offset, rooms[0], channels);
        let rest = fill_buffers(queue, r.1, r.2, rooms.drop_first(), channels);
        (r.0 + rest.0, rest.1, rest.2)
    }
}

/// Gapless playback across callbacks: the buffers the device asks for, one
/// after the other, receive together exactly the samples of the queue that
/// follow those already played, each once and in order, with no gap
/// between buffers or between frames.
pub proof fn lemma_successive_buffers_are_gapless<T>(
    queue: Seq<Seq<T>>,
    index: nat,
    offset: nat,
    rooms: Seq<nat>,
    channels: nat,
)
    requires
        channels > 0,
        forall|i: int| 0 <= i < queue.len() ==> #[trigger] queue[i].len() % channels == 0,
        forall|k: int| 0 <= k < rooms.len() ==> #[trigger] rooms[k] % channels == 0,
        index < queue.len() ==> offset <= queue[index as int].len(),
        index <= queue.len(),
        index == queue.len() ==> offset == 0,
        offset % channels == 0,
    ensures
        ({
            let r = fill_buffers(queue, index, offset, rooms, channels);
            played(queue, r.1 as int, r.2 as int) == played(queue, index as int, offset as int) + r.0
        }),
    decreases rooms.len(),
{
    if rooms.len() == 0 {
        assert(played(queue, index as int, offset as int) + Seq::<T>::empty() =~= played(queue, index as int, offset as int));
        return;
    }
    let r = fill_run(queue, index, offset, rooms[0], channels);
    if index < queue.len() {
        lemma_fill_run_is_gapless(queue, index, offset, rooms[0], channels);
    } else {
        assert(r == (Seq::<T>::empty(), index, offset));
        assert(played(queue, index as int, offset as int) + Seq::<T>::empty() =~= played(queue, index as int, offset as int));
    }
    let rest_rooms = rooms.drop_first();
    assert forall|k: int| 0 <= k < rest_rooms.len() implies #[trigger] rest_rooms[k] % channels == 0 by {
        assert(rest_rooms[k] == rooms[k + 1]);
    }
    lemma_successive_buffers_are_gapless(queue, r.1, r.2, rest_rooms, channels);
    let rest = fill_buffers(queue, r.1, r.2, rest_rooms, channels);
    assert(played(queue, rest.1 as int, rest.2 as int) =~= played(queue, index as int, offset as int) + (r.0 + rest.0));
}

proof fn lemma_mod_add_multiple(a: int, g: int, c: int)
    requires
        c > 0,
        a % c == 0,
    ensures
        (a + g * c) % c == 0,
{
    vstd::arithmetic::div_mod::lemma_mod_multiples_vanish(g, a, c);
    assert(a + g * c == c * g + a) by (nonlinear_arith);
}

proof fn lemma_mod_sub_multiple(a: int, g: int, c: int)
    requires
        c > 0,
        a % c == 0,
    ensures
        (a - g * c) % c == 0,
{
    vstd::arithmetic::div_mod::lemma_mod_multiples_vanish(-g, a, c);
    assert(a - g * c == c * (-g) + a) by (nonlinear_arith);
}

/// How long, in nanoseconds, the playback thread rests after a call of the
/// player that took `elapsed_nanos`: the rest of the interval, so that calls
/// start one interval apart, and no rest after a call that took the whole
/// interval or longer.
pub fn nap_nanos(interval_nanos: u64, elapsed_nanos: u64) -> (nap: u64)
    ensures
        nap == if elapsed_nanos < interval_nanos { interval_nanos - elapsed_nanos } else { 0 },
{
    if elapsed_nanos < interval_nanos {
        interval_nanos - elapsed_nanos
    } else {
        0
    }
}

} // verus!
