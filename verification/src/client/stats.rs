//! Counts for the log: how many frames went by, how large they were and how long they took.

use vstd::prelude::*;

verus! {

/// The longest time that can be summed up: the most that a count of seconds in 64 bits and a
/// count of nanoseconds below a second hold.
pub const MAX_DURATION: u128 = 18_446_744_073_709_551_615_999_999_999;

/// How often a report is due.
pub const REPORT_INTERVAL: u128 = 1_000_000_000;

/// The time from `since` to `now`, and zero where the clock went back.
pub open spec fn elapsed_spec(since: u128, now: u128) -> u128 {
    if now >= since {
        (now - since) as u128
    } else {
        0
    }
}

/// The time from `since` to `now`, and zero where the clock went back.
pub fn elapsed_since(since: u128, now: u128) -> (elapsed: u128)
    ensures
        elapsed == elapsed_spec(since, now),
{
    if now >= since {
        now - since
    } else {
        0
    }
}

/// What was sent of a shared window. All times are in nanoseconds.
#[derive(Debug)]
pub struct ShareSendStats {
    /// The clock when counting began.
    pub started_at: Option<u128>,
    pub frames: u64,
    pub bytes: u64,
    pub wait_time: u128,
    pub encode_time: u128,
    pub write_time: u128,
    pub width: usize,
    pub height: usize,
}

/// What the log is told about a stretch of time.
#[derive(Debug)]
pub struct ShareSendReport {
    pub elapsed: u128,
    pub frames: u64,
    pub bytes: u64,
    pub wait_time: u128,
    pub encode_time: u128,
    pub write_time: u128,
    pub width: usize,
    pub height: usize,
}

impl ShareSendStats {
    /// Nothing counted yet.
    pub open spec fn empty(started_at: Option<u128>) -> ShareSendStats {
        ShareSendStats {
            started_at,
            frames: 0,
            bytes: 0,
            wait_time: 0,
            encode_time: 0,
            write_time: 0,
            width: 0,
            height: 0,
        }
    }

    /// Whether one more frame can be counted without a counter running over.
    pub open spec fn has_room(
        self,
        wait_time: u128,
        encode_time: u128,
        write_time: u128,
        bytes: usize,
    ) -> bool {
        &&& self.frames < u64::MAX
        &&& self.bytes + bytes <= u64::MAX
        &&& self.wait_time + wait_time <= MAX_DURATION
        &&& self.encode_time + encode_time <= MAX_DURATION
        &&& self.write_time + write_time <= MAX_DURATION
    }

    /// One more frame counted.
    pub open spec fn counted(
        self,
        now: u128,
        wait_time: u128,
        encode_time: u128,
        write_time: u128,
        bytes: usize,
        dimensions: (usize, usize),
    ) -> ShareSendStats {
        ShareSendStats {
            started_at: Some(
                match self.started_at {
                    Some(at) => at,
                    None => now,
                },
            ),
            frames: (self.frames + 1) as u64,
            bytes: (self.bytes + bytes) as u64,
            wait_time: (self.wait_time + wait_time) as u128,
            encode_time: (self.encode_time + encode_time) as u128,
            write_time: (self.write_time + write_time) as u128,
            width: dimensions.0,
            height: dimensions.1,
        }
    }

    /// The counts as a report.
    pub open spec fn report(self, elapsed: u128) -> ShareSendReport {
        ShareSendReport {
            elapsed,
            frames: self.frames,
            bytes: self.bytes,
            wait_time: self.wait_time,
            encode_time: self.encode_time,
            write_time: self.write_time,
            width: self.width,
            height: self.height,
        }
    }

    /// The counts after one more frame, and the report that is due: once a second has passed
    /// since counting began, the counts are reported and start anew.
    pub open spec fn recorded(
        self,
        now: u128,
        wait_time: u128,
        encode_time: u128,
        write_time: u128,
        bytes: usize,
        dimensions: (usize, usize),
    ) -> (ShareSendStats, Option<ShareSendReport>) {
        let total = self.counted(now, wait_time, encode_time, write_time, bytes, dimensions);
        let elapsed = elapsed_spec(total.started_at->0, now);
        if elapsed >= REPORT_INTERVAL {
            (ShareSendStats::empty(Some(now)), Some(total.report(elapsed)))
        } else {
            (total, None)
        }
    }

    /// Counts one more frame. Gives a report when one is due.
    pub fn record(
        &mut self,
        now: u128,
        wait_time: u128,
        encode_time: u128,
        write_time: u128,
        bytes: usize,
        dimensions: (usize, usize),
    ) -> (report: Option<ShareSendReport>)
        requires
            old(self).has_room(wait_time, encode_time, write_time, bytes),
        ensures
            (*final(self), report) == old(self).recorded(
                now,
                wait_time,
                encode_time,
                write_time,
                bytes,
                dimensions,
            ),
    {
        let started_at: u128 = match self.started_at {
            Some(at) => at,
            None => now,
        };
        self.started_at = Some(started_at);
        self.frames += 1;
        self.bytes += bytes as u64;
        self.wait_time += wait_time;
        self.encode_time += encode_time;
        self.write_time += write_time;
        self.width = dimensions.0;
        self.height = dimensions.1;

        let elapsed: u128 = elapsed_since(started_at, now);
        if elapsed >= REPORT_INTERVAL {
            let report = ShareSendReport {
                elapsed,
                frames: self.frames,
                bytes: self.bytes,
                wait_time: self.wait_time,
                encode_time: self.encode_time,
                write_time: self.write_time,
                width: self.width,
                height: self.height,
            };
            self.reset(now);
            Some(report)
        } else {
            None
        }
    }

    /// Starts counting anew.
    pub fn reset(&mut self, now: u128)
        ensures
            *final(self) == ShareSendStats::empty(Some(now)),
    {
        *self = ShareSendStats { started_at: Some(now), ..Default::default() };
    }

    /// Between two reports a second passes: counting that began at `at` reports nothing before
    /// `at` and a second, and goes on counting from `at`.
    pub proof fn no_report_within_a_second(
        self,
        at: u128,
        now: u128,
        wait_time: u128,
        encode_time: u128,
        write_time: u128,
        bytes: usize,
        dimensions: (usize, usize),
    )
        requires
            self.started_at == Some(at),
            now < at + REPORT_INTERVAL,
        ensures
            ({
                let (after, report) = self.recorded(
                    now,
                    wait_time,
                    encode_time,
                    write_time,
                    bytes,
                    dimensions,
                );
                &&& report is None
                &&& after.started_at == Some(at)
            }),
    {
    }

    /// After a report the count begins again at the time of the report, from nothing.
    pub proof fn a_report_starts_the_next_count(
        self,
        now: u128,
        wait_time: u128,
        encode_time: u128,
        write_time: u128,
        bytes: usize,
        dimensions: (usize, usize),
    )
        ensures
            ({
                let (after, report) = self.recorded(
                    now,
                    wait_time,
                    encode_time,
                    write_time,
                    bytes,
                    dimensions,
                );
                report is Some ==> after == ShareSendStats::empty(Some(now))
            }),
    {
    }
}

impl Default for ShareSendStats {
    fn default() -> (stats: ShareSendStats)
        ensures
            stats == ShareSendStats::empty(None),
    {
        ShareSendStats {
            started_at: None,
            frames: 0,
            bytes: 0,
            wait_time: 0,
            encode_time: 0,
            write_time: 0,
            width: 0,
            height: 0,
        }
    }
}

/// What was received and decoded. All times are in nanoseconds.
#[derive(Debug)]
pub struct ReceiveStats {
    /// The clock when counting began.
    pub started_at: Option<u128>,
    pub frames: u64,
    pub bytes: u64,
    pub read_time: u128,
    pub decode_time: u128,
    pub rgba_time: u128,
    pub publish_time: u128,
    pub width: u32,
    pub height: u32,
}

/// What the log is told about a stretch of time.
#[derive(Debug)]
pub struct ReceiveReport {
    pub elapsed: u128,
    pub frames: u64,
    pub bytes: u64,
    pub read_time: u128,
    pub decode_time: u128,
    pub rgba_time: u128,
    pub publish_time: u128,
    pub width: u32,
    pub height: u32,
}

impl ReceiveStats {
    /// Nothing counted yet.
    pub open spec fn empty(started_at: Option<u128>) -> ReceiveStats {
        ReceiveStats {
            started_at,
            frames: 0,
            bytes: 0,
            read_time: 0,
            decode_time: 0,
            rgba_time: 0,
            publish_time: 0,
            width: 0,
            height: 0,
        }
    }

    /// Whether one more frame can be counted without a counter running over.
    pub open spec fn has_room(
        self,
        read_time: u128,
        decode_time: u128,
        rgba_time: u128,
        publish_time: u128,
        bytes: usize,
    ) -> bool {
        &&& self.frames < u64::MAX
        &&& self.bytes + bytes <= u64::MAX
        &&& self.read_time + read_time <= MAX_DURATION
        &&& self.decode_time + decode_time <= MAX_DURATION
        &&& self.rgba_time + rgba_time <= MAX_DURATION
        &&& self.publish_time + publish_time <= MAX_DURATION
    }

    /// One more frame counted.
    pub open spec fn counted(
        self,
        now: u128,
        read_time: u128,
        decode_time: u128,
        rgba_time: u128,
        publish_time: u128,
        bytes: usize,
        dimensions: (u32, u32),
    ) -> ReceiveStats {
        ReceiveStats {
            started_at: Some(
                match self.started_at {
                    Some(at) => at,
                    None => now,
                },
            ),
            frames: (self.frames + 1) as u64,
            bytes: (self.bytes + bytes) as u64,
            read_time: (self.read_time + read_time) as u128,
            decode_time: (self.decode_time + decode_time) as u128,
            rgba_time: (self.rgba_time + rgba_time) as u128,
            publish_time: (self.publish_time + publish_time) as u128,
            width: dimensions.0,
            height: dimensions.1,
        }
    }

    /// The counts as a report.
    pub open spec fn report(self, elapsed: u128) -> ReceiveReport {
        ReceiveReport {
            elapsed,
            frames: self.frames,
            bytes: self.bytes,
            read_time: self.read_time,
            decode_time: self.decode_time,
            rgba_time: self.rgba_time,
            publish_time: self.publish_time,
            width: self.width,
            height: self.height,
        }
    }

    /// The counts after one more frame, and the report that is due: once a second has passed
    /// since counting began, the counts are reported and start anew.
    pub open spec fn recorded(
        self,
        now: u128,
        read_time: u128,
        decode_time: u128,
        rgba_time: u128,
        publish_time: u128,
        bytes: usize,
        dimensions: (u32, u32),
    ) -> (ReceiveStats, Option<ReceiveReport>) {
        let total = self.counted(
            now,
            read_time,
            decode_time,
            rgba_time,
            publish_time,
            bytes,
            dimensions,
        );
        let elapsed = elapsed_spec(total.started_at->0, now);
        if elapsed >= REPORT_INTERVAL {
            (ReceiveStats::empty(Some(now)), Some(total.report(elapsed)))
        } else {
            (total, None)
        }
    }

    /// Counts one more frame. Gives a report when one is due.
    pub fn record(
        &mut self,
        now: u128,
        read_time: u128,
        decode_time: u128,
        rgba_time: u128,
        publish_time: u128,
        bytes: usize,
        dimensions: (u32, u32),
    ) -> (report: Option<ReceiveReport>)
        requires
            old(self).has_room(read_time, decode_time, rgba_time, publish_time, bytes),
        ensures
            (*final(self), report) == old(self).recorded(
                now,
                read_time,
                decode_time,
                rgba_time,
                publish_time,
                bytes,
                dimensions,
            ),
    {
        let started_at: u128 = match self.started_at {
            Some(at) => at,
            None => now,
        };
        self.started_at = Some(started_at);
        self.frames += 1;
        self.bytes += bytes as u64;
        self.read_time += read_time;
        self.decode_time += decode_time;
        self.rgba_time += rgba_time;
        self.publish_time += publish_time;
        self.width = dimensions.0;
        self.height = dimensions.1;

        let elapsed: u128 = elapsed_since(started_at, now);
        if elapsed >= REPORT_INTERVAL {
            let report = ReceiveReport {
                elapsed,
                frames: self.frames,
                bytes: self.bytes,
                read_time: self.read_time,
                decode_time: self.decode_time,
                rgba_time: self.rgba_time,
                publish_time: self.publish_time,
                width: self.width,
                height: self.height,
            };
            self.reset(now);
            Some(report)
        } else {
            None
        }
    }

    /// Starts counting anew.
    pub fn reset(&mut self, now: u128)
        ensures
            *final(self) == ReceiveStats::empty(Some(now)),
    {
        *self = ReceiveStats { started_at: Some(now), ..Default::default() };
    }

    /// Between two reports a second passes: counting that began at `at` reports nothing before
    /// `at` and a second, and goes on counting from `at`.
    pub proof fn no_report_within_a_second(
        self,
        at: u128,
        now: u128,
        read_time: u128,
        decode_time: u128,
        rgba_time: u128,
        publish_time: u128,
        bytes: usize,
        dimensions: (u32, u32),
    )
        requires
            self.started_at == Some(at),
            now < at + REPORT_INTERVAL,
        ensures
            ({
                let (after, report) = self.recorded(
                    now,
                    read_time,
                    decode_time,
                    rgba_time,
                    publish_time,
                    bytes,
                    dimensions,
                );
                &&& report is None
                &&& after.started_at == Some(at)
            }),
    {
    }

    /// After a report the count begins again at the time of the report, from nothing.
    pub proof fn a_report_starts_the_next_count(
        self,
        now: u128,
        read_time: u128,
        decode_time: u128,
        rgba_time: u128,
        publish_time: u128,
        bytes: usize,
        dimensions: (u32, u32),
    )
        ensures
            ({
                let (after, report) = self.recorded(
                    now,
                    read_time,
                    decode_time,
                    rgba_time,
                    publish_time,
                    bytes,
                    dimensions,
                );
                report is Some ==> after == ReceiveStats::empty(Some(now))
            }),
    {
    }
}

impl Default for ReceiveStats {
    fn default() -> (stats: ReceiveStats)
        ensures
            stats == ReceiveStats::empty(None),
    {
        ReceiveStats {
            started_at: None,
            frames: 0,
            bytes: 0,
            read_time: 0,
            decode_time: 0,
            rgba_time: 0,
            publish_time: 0,
            width: 0,
            height: 0,
        }
    }
}

/// What was captured of a shared window. All times are in nanoseconds.
#[derive(Debug)]
pub struct CaptureStats {
    /// The clock when counting began.
    pub started_at: Option<u128>,
    pub frames: u64,
    pub buffer_time: u128,
    pub convert_time: u128,
    pub publish_time: u128,
    pub width: u32,
    pub height: u32,
}

/// What the log is told about a stretch of time.
#[derive(Debug)]
pub struct CaptureReport {
    pub elapsed: u128,
    pub frames: u64,
    pub buffer_time: u128,
    pub convert_time: u128,
    pub publish_time: u128,
    pub width: u32,
    pub height: u32,
}

impl CaptureStats {
    /// Nothing counted yet.
    pub open spec fn empty(started_at: Option<u128>) -> CaptureStats {
        CaptureStats {
            started_at,
            frames: 0,
            buffer_time: 0,
            convert_time: 0,
            publish_time: 0,
            width: 0,
            height: 0,
        }
    }

    /// Whether one more frame can be counted without a counter running over.
    pub open spec fn has_room(
        self,
        buffer_time: u128,
        convert_time: u128,
        publish_time: u128,
    ) -> bool {
        &&& self.frames < u64::MAX
        &&& self.buffer_time + buffer_time <= MAX_DURATION
        &&& self.convert_time + convert_time <= MAX_DURATION
        &&& self.publish_time + publish_time <= MAX_DURATION
    }

    /// One more frame counted.
    pub open spec fn counted(
        self,
        now: u128,
        buffer_time: u128,
        convert_time: u128,
        publish_time: u128,
        dimensions: (u32, u32),
    ) -> CaptureStats {
        CaptureStats {
            started_at: Some(
                match self.started_at {
                    Some(at) => at,
                    None => now,
                },
            ),
            frames: (self.frames + 1) as u64,
            buffer_time: (self.buffer_time + buffer_time) as u128,
            convert_time: (self.convert_time + convert_time) as u128,
            publish_time: (self.publish_time + publish_time) as u128,
            width: dimensions.0,
            height: dimensions.1,
        }
    }

    /// The counts as a report.
    pub open spec fn report(self, elapsed: u128) -> CaptureReport {
        CaptureReport {
            elapsed,
            frames: self.frames,
            buffer_time: self.buffer_time,
            convert_time: self.convert_time,
            publish_time: self.publish_time,
            width: self.width,
            height: self.height,
        }
    }

    /// The counts after one more frame, and the report that is due: once a second has passed
    /// since counting began, the counts are reported and start anew.
    pub open spec fn recorded(
        self,
        now: u128,
        buffer_time: u128,
        convert_time: u128,
        publish_time: u128,
        dimensions: (u32, u32),
    ) -> (CaptureStats, Option<CaptureReport>) {
        let total = self.counted(now, buffer_time, convert_time, publish_time, dimensions);
        let elapsed = elapsed_spec(total.started_at->0, now);
        if elapsed >= REPORT_INTERVAL {
            (CaptureStats::empty(Some(now)), Some(total.report(elapsed)))
        } else {
            (total, None)
        }
    }

    /// Counts one more frame. Gives a report when one is due.
    pub fn record(
        &mut self,
        now: u128,
        buffer_time: u128,
        convert_time: u128,
        publish_time: u128,
        dimensions: (u32, u32),
    ) -> (report: Option<CaptureReport>)
        requires
            old(self).has_room(buffer_time, convert_time, publish_time),
        ensures
            (*final(self), report) == old(self).recorded(
                now,
                buffer_time,
                convert_time,
                publish_time,
                dimensions,
            ),
    {
        let started_at: u128 = match self.started_at {
            Some(at) => at,
            None => now,
        };
        self.started_at = Some(started_at);
        self.frames += 1;
        self.buffer_time += buffer_time;
        self.convert_time += convert_time;
        self.publish_time += publish_time;
        self.width = dimensions.0;
        self.height = dimensions.1;

        let elapsed: u128 = elapsed_since(started_at, now);
        if elapsed >= REPORT_INTERVAL {
            let report = CaptureReport {
                elapsed,
                frames: self.frames,
                buffer_time: self.buffer_time,
                convert_time: self.convert_time,
                publish_time: self.publish_time,
                width: self.width,
                height: self.height,
            };
            self.reset(now);
            Some(report)
        } else {
            None
        }
    }

    /// Starts counting anew.
    pub fn reset(&mut self, now: u128)
        ensures
            *final(self) == CaptureStats::empty(Some(now)),
    {
        *self = CaptureStats { started_at: Some(now), ..Default::default() };
    }

    /// Between two reports a second passes: counting that began at `at` reports nothing before
    /// `at` and a second, and goes on counting from `at`.
    pub proof fn no_report_within_a_second(
        self,
        at: u128,
        now: u128,
        buffer_time: u128,
        convert_time: u128,
        publish_time: u128,
        dimensions: (u32, u32),
    )
        requires
            self.started_at == Some(at),
            now < at + REPORT_INTERVAL,
        ensures
            ({
                let (after, report) = self.recorded(
                    now,
                    buffer_time,
                    convert_time,
                    publish_time,
                    dimensions,
                );
                &&& report is None
                &&& after.started_at == Some(at)
            }),
    {
    }

    /// After a report the count begins again at the time of the report, from nothing.
    pub proof fn a_report_starts_the_next_count(
        self,
        now: u128,
        buffer_time: u128,
        convert_time: u128,
        publish_time: u128,
        dimensions: (u32, u32),
    )
        ensures
            ({
                let (after, report) = self.recorded(
                    now,
                    buffer_time,
                    convert_time,
                    publish_time,
                    dimensions,
                );
                report is Some ==> after == CaptureStats::empty(Some(now))
            }),
    {
    }
}

impl Default for CaptureStats {
    fn default() -> (stats: CaptureStats)
        ensures
            stats == CaptureStats::empty(None),
    {
        CaptureStats {
            started_at: None,
            frames: 0,
            buffer_time: 0,
            convert_time: 0,
            publish_time: 0,
            width: 0,
            height: 0,
        }
    }
}

/// The time that passed is the difference of two readings, and nothing where the clock went back.
pub proof fn time_is_the_difference_of_readings(since: u128, now: u128)
    ensures
        now >= since ==> elapsed_spec(since, now) == now - since,
        now < since ==> elapsed_spec(since, now) == 0,
{
}

impl ShareSendStats {
    /// Every frame is counted once, and added up with those before it, until a second has passed
    /// since the first of them. Then all of it is reported, this frame included, and counting starts
    /// anew. The first frame starts the clock.
    pub proof fn every_frame_is_counted_once(
        self,
        now: u128,
        wait_time: u128,
        encode_time: u128,
        write_time: u128,
        bytes: usize,
        dimensions: (usize, usize),
    )
        requires
            self.frames < u64::MAX,
            self.wait_time + wait_time <= 18_446_744_073_709_551_615_999_999_999,
            self.encode_time + encode_time <= 18_446_744_073_709_551_615_999_999_999,
            self.write_time + write_time <= 18_446_744_073_709_551_615_999_999_999,
            self.bytes + bytes <= u64::MAX,
        ensures
            self.has_room(wait_time, encode_time, write_time, bytes),
            ({
                let (after, report) = self.recorded(now, wait_time, encode_time, write_time, bytes, dimensions);
                let since = match self.started_at {
                    Some(at) => at,
                    None => now,
                };
                if now - since < 1_000_000_000 {
                    &&& report is None
                    &&& after.started_at == Some(since)
                    &&& after.frames == self.frames + 1
                    &&& after.bytes == self.bytes + bytes
                    &&& after.wait_time == self.wait_time + wait_time
                    &&& after.encode_time == self.encode_time + encode_time
                    &&& after.write_time == self.write_time + write_time
                    &&& after.width == dimensions.0
                    &&& after.height == dimensions.1
                } else {
                    &&& report matches Some(told)
                    &&& told.elapsed == now - since
                    &&& told.frames == self.frames + 1
                    &&& told.bytes == self.bytes + bytes
                    &&& told.wait_time == self.wait_time + wait_time
                    &&& told.encode_time == self.encode_time + encode_time
                    &&& told.write_time == self.write_time + write_time
                    &&& told.width == dimensions.0
                    &&& told.height == dimensions.1
                    &&& after.started_at == Some(now)
                    &&& after.frames == 0
                    &&& after.bytes == 0
                    &&& after.wait_time == 0
                    &&& after.encode_time == 0
                    &&& after.write_time == 0
                    &&& after.width == 0
                    &&& after.height == 0
                }
            }),
    {
    }

    /// At the start nothing is counted.
    pub proof fn at_the_start_nothing_is_counted(started_at: Option<u128>)
        ensures
            ({
                let stats = ShareSendStats::empty(started_at);
                &&& stats.started_at == started_at
                &&& stats.frames == 0
                &&& stats.bytes == 0
                &&& stats.wait_time == 0
                &&& stats.encode_time == 0
                &&& stats.write_time == 0
                &&& stats.width == 0
                &&& stats.height == 0
            }),
    {
    }
}

impl ReceiveStats {
    /// Every frame is counted once, and added up with those before it, until a second has passed
    /// since the first of them. Then all of it is reported, this frame included, and counting starts
    /// anew. The first frame starts the clock.
    pub proof fn every_frame_is_counted_once(
        self,
        now: u128,
        read_time: u128,
        decode_time: u128,
        rgba_time: u128,
        publish_time: u128,
        bytes: usize,
        dimensions: (u32, u32),
    )
        requires
            self.frames < u64::MAX,
            self.read_time + read_time <= 18_446_744_073_709_551_615_999_999_999,
            self.decode_time + decode_time <= 18_446_744_073_709_551_615_999_999_999,
            self.rgba_time + rgba_time <= 18_446_744_073_709_551_615_999_999_999,
            self.publish_time + publish_time <= 18_446_744_073_709_551_615_999_999_999,
            self.bytes + bytes <= u64::MAX,
        ensures
            self.has_room(read_time, decode_time, rgba_time, publish_time, bytes),
            ({
                let (after, report) = self.recorded(now, read_time, decode_time, rgba_time, publish_time, bytes, dimensions);
                let since = match self.started_at {
                    Some(at) => at,
                    None => now,
                };
                if now - since < 1_000_000_000 {
                    &&& report is None
                    &&& after.started_at == Some(since)
                    &&& after.frames == self.frames + 1
                    &&& after.bytes == self.bytes + bytes
                    &&& after.read_time == self.read_time + read_time
                    &&& after.decode_time == self.decode_time + decode_time
                    &&& after.rgba_time == self.rgba_time + rgba_time
                    &&& after.publish_time == self.publish_time + publish_time
                    &&& after.width == dimensions.0
                    &&& after.height == dimensions.1
                } else {
                    &&& report matches Some(told)
                    &&& told.elapsed == now - since
                    &&& told.frames == self.frames + 1
                    &&& told.bytes == self.bytes + bytes
                    &&& told.read_time == self.read_time + read_time
                    &&& told.decode_time == self.decode_time + decode_time
                    &&& told.rgba_time == self.rgba_time + rgba_time
                    &&& told.publish_time == self.publish_time + publish_time
                    &&& told.width == dimensions.0
                    &&& told.height == dimensions.1
                    &&& after.started_at == Some(now)
                    &&& after.frames == 0
                    &&& after.bytes == 0
                    &&& after.read_time == 0
                    &&& after.decode_time == 0
                    &&& after.rgba_time == 0
                    &&& after.publish_time == 0
                    &&& after.width == 0
                    &&& after.height == 0
                }
            }),
    {
    }

    /// At the start nothing is counted.
    pub proof fn at_the_start_nothing_is_counted(started_at: Option<u128>)
        ensures
            ({
                let stats = ReceiveStats::empty(started_at);
                &&& stats.started_at == started_at
                &&& stats.frames == 0
                &&& stats.bytes == 0
                &&& stats.read_time == 0
                &&& stats.decode_time == 0
                &&& stats.rgba_time == 0
                &&& stats.publish_time == 0
                &&& stats.width == 0
                &&& stats.height == 0
            }),
    {
    }
}

impl CaptureStats {
    /// Every frame is counted once, and added up with those before it, until a second has passed
    /// since the first of them. Then all of it is reported, this frame included, and counting starts
    /// anew. The first frame starts the clock.
    pub proof fn every_frame_is_counted_once(
        self,
        now: u128,
        buffer_time: u128,
        convert_time: u128,
        publish_time: u128,
        dimensions: (u32, u32),
    )
        requires
            self.frames < u64::MAX,
            self.buffer_time + buffer_time <= 18_446_744_073_709_551_615_999_999_999,
            self.convert_time + convert_time <= 18_446_744_073_709_551_615_999_999_999,
            self.publish_time + publish_time <= 18_446_744_073_709_551_615_999_999_999,
        ensures
            self.has_room(buffer_time, convert_time, publish_time),
            ({
                let (after, report) = self.recorded(now, buffer_time, convert_time, publish_time, dimensions);
                let since = match self.started_at {
                    Some(at) => at,
                    None => now,
                };
                if now - since < 1_000_000_000 {
                    &&& report is None
                    &&& after.started_at == Some(since)
                    &&& after.frames == self.frames + 1
                    &&& after.buffer_time == self.buffer_time + buffer_time
                    &&& after.convert_time == self.convert_time + convert_time
                    &&& after.publish_time == self.publish_time + publish_time
                    &&& after.width == dimensions.0
                    &&& after.height == dimensions.1
                } else {
                    &&& report matches Some(told)
                    &&& told.elapsed == now - since
                    &&& told.frames == self.frames + 1
                    &&& told.buffer_time == self.buffer_time + buffer_time
                    &&& told.convert_time == self.convert_time + convert_time
                    &&& told.publish_time == self.publish_time + publish_time
                    &&& told.width == dimensions.0
                    &&& told.height == dimensions.1
                    &&& after.started_at == Some(now)
                    &&& after.frames == 0
                    &&& after.buffer_time == 0
                    &&& after.convert_time == 0
                    &&& after.publish_time == 0
                    &&& after.width == 0
                    &&& after.height == 0
                }
            }),
    {
    }

    /// At the start nothing is counted.
    pub proof fn at_the_start_nothing_is_counted(started_at: Option<u128>)
        ensures
            ({
                let stats = CaptureStats::empty(started_at);
                &&& stats.started_at == started_at
                &&& stats.frames == 0
                &&& stats.buffer_time == 0
                &&& stats.convert_time == 0
                &&& stats.publish_time == 0
                &&& stats.width == 0
                &&& stats.height == 0
            }),
    {
    }
}

} // verus!
