use vstd::prelude::*;

use crate::codes;
use crate::images::{
    convert_image, convert_image_with_format, encoded_image, ImageRect, Raster, WriteImageParameters,
};
use crate::info::Kind;
use crate::parser::is_ack;
use crate::request::{request_frame, zeros, Request};
use crate::{AjazzError, AjazzInput, Event, InputView};

verus! {

/// The bytes of each frame
pub open spec fn frames_view(frames: Seq<Vec<u8>>) -> Seq<Seq<u8>> {
    frames.map_values(|f: Vec<u8>| f@)
}

/// One image report: a zero report-ID byte, the chunk, zero padding up to `report_length`
pub open spec fn image_report(chunk: Seq<u8>, report_length: nat) -> Seq<u8> {
    seq![0u8] + chunk + zeros((report_length - 1 - chunk.len()) as nat)
}

/// The reports that stream `data` in chunks of at most `payload_length` bytes
pub open spec fn image_reports(data: Seq<u8>, report_length: nat, payload_length: nat) -> Seq<Seq<u8>>
    decreases data.len(),
{
    if data.len() == 0 || payload_length == 0 {
        seq![]
    } else {
        let n = if data.len() < payload_length {
            data.len()
        } else {
            payload_length
        };
        seq![image_report(data.take(n as int), report_length)] + image_reports(
            data.skip(n as int),
            report_length,
            payload_length,
        )
    }
}

/// Reports of `data` with the parameters of a kind's key images
pub open spec fn kind_image_reports(kind: Kind, data: Seq<u8>) -> Seq<Seq<u8>> {
    let p = WriteImageParameters::spec_for_kind(kind);
    image_reports(data, p.image_report_length as nat, p.image_report_payload_length as nat)
}

/// Frames that write one cached key image: its announcement, then its reports
pub open spec fn key_image_frames(kind: Kind, key: u8, data: Seq<u8>) -> Seq<Seq<u8>> {
    seq![request_frame(kind, Request::ImageAnnounce(kind.spec_key_image_slot(key), data.len()))]
        + kind_image_reports(kind, data)
}

/// Frames that write every cached image, in the order they were queued
pub open spec fn cached_image_frames(kind: Kind, cache: Seq<(u8, Seq<u8>)>) -> Seq<Seq<u8>>
    decreases cache.len(),
{
    if cache.len() == 0 {
        seq![]
    } else {
        cached_image_frames(kind, cache.drop_last()) + key_image_frames(
            kind,
            cache.last().0,
            cache.last().1,
        )
    }
}

/// Frames of a flush: nothing when no image is queued, else every queued image and the flush command
pub open spec fn flush_frames(kind: Kind, cache: Seq<(u8, Seq<u8>)>) -> Seq<Seq<u8>> {
    if cache.len() == 0 {
        seq![]
    } else {
        cached_image_frames(kind, cache).push(request_frame(kind, Request::Flush))
    }
}

/// Frames of a boot logo stream: the logo announcement, a flush, then the image reports
pub open spec fn logo_frames(kind: Kind, data: Seq<u8>) -> Seq<Seq<u8>> {
    seq![request_frame(kind, Request::LogoImage(data.len())), request_frame(kind, Request::Flush)]
        + kind_image_reports(kind, data)
}

/// The initialization frame if the session has not yet sent it
pub open spec fn init_frames(kind: Kind, initialized: bool) -> Seq<Seq<u8>> {
    if initialized {
        seq![]
    } else {
        seq![request_frame(kind, Request::Initialize)]
    }
}

/// Frames of clearing every key image: the clear command, and a flush on v2 devices
pub open spec fn clear_all_frames(kind: Kind) -> Seq<Seq<u8>> {
    if kind.spec_is_v2_api() {
        seq![
            request_frame(kind, Request::ClearButtonImage(codes::CMD_CLEAR_ALL)),
            request_frame(kind, Request::Flush),
        ]
    } else {
        seq![request_frame(kind, Request::ClearButtonImage(codes::CMD_CLEAR_ALL))]
    }
}

/// Builds one image report from `data[start..start + n]`
fn image_report_frame(data: &[u8], start: usize, n: usize, report_length: usize) -> (r: Vec<u8>)
    requires
        start + n <= data@.len(),
        n + 1 <= report_length,
    ensures
        r@ == image_report(data@.subrange(start as int, start + n), report_length as nat),
{
    let len = data.len();
    let mut buf: Vec<u8> = Vec::new();
    buf.push(0x00);
    let mut i: usize = 0;
    while i < n
        invariant
            i <= n,
            len == data@.len(),
            start + n <= data@.len(),
            buf@ == seq![0u8] + data@.subrange(start as int, start + i),
        decreases n - i,
    {
        buf.push(data[start + i]);
        i = i + 1;
        assert(buf@ =~= seq![0u8] + data@.subrange(start as int, start + i));
    }
    let ghost filled = buf@;
    while buf.len() < report_length
        invariant
            filled.len() <= buf@.len() <= report_length,
            buf@ == filled + zeros((buf@.len() - filled.len()) as nat),
        decreases report_length - buf@.len(),
    {
        buf.push(0x00);
        assert(buf@ =~= filled + zeros((buf@.len() - filled.len()) as nat));
    }
    buf
}

/// Splits image data into reports of `image_report_length` bytes
pub fn image_data_reports(image_data: &[u8], parameters: WriteImageParameters) -> (r: Vec<Vec<u8>>)
    requires
        parameters.image_report_payload_length >= 1,
        parameters.image_report_payload_length + 1 <= parameters.image_report_length,
    ensures
        frames_view(r@) == image_reports(
            image_data@,
            parameters.image_report_length as nat,
            parameters.image_report_payload_length as nat,
        ),
{
    let report_length = parameters.image_report_length;
    let payload_length = parameters.image_report_payload_length;
    let ghost rl = report_length as nat;
    let ghost pl = payload_length as nat;
    let mut out: Vec<Vec<u8>> = Vec::new();
    let mut bytes_sent: usize = 0;
    let len = image_data.len();
    let mut bytes_remaining = len;
    assert(image_data@.skip(0) =~= image_data@);
    assert(frames_view(out@) + image_reports(image_data@, rl, pl) =~= image_reports(image_data@, rl, pl));
    while bytes_remaining > 0
        invariant
            len == image_data@.len(),
            bytes_sent + bytes_remaining == image_data@.len(),
            pl >= 1,
            pl + 1 <= rl,
            rl == report_length,
            pl == payload_length,
            frames_view(out@) + image_reports(image_data@.skip(bytes_sent as int), rl, pl)
                == image_reports(image_data@, rl, pl),
        decreases bytes_remaining,
    {
        let this_length = if bytes_remaining < payload_length {
            bytes_remaining
        } else {
            payload_length
        };
        let frame = image_report_frame(image_data, bytes_sent, this_length, report_length);
        let ghost rest = image_data@.skip(bytes_sent as int);
        assert(rest.take(this_length as int) =~= image_data@.subrange(
            bytes_sent as int,
            bytes_sent + this_length,
        ));
        assert(rest.skip(this_length as int) =~= image_data@.skip(bytes_sent + this_length));
        let ghost before = frames_view(out@);
        out.push(frame);
        assert(frames_view(out@) =~= before.push(frame@));
        assert(frames_view(out@) + image_reports(image_data@.skip(bytes_sent + this_length), rl, pl)
            =~= before + image_reports(rest, rl, pl));
        bytes_sent = bytes_sent + this_length;
        bytes_remaining = bytes_remaining - this_length;
    }
    assert(image_data@.skip(bytes_sent as int).len() == 0);
    assert(frames_view(out@) + seq![] =~= frames_view(out@));
    out
}

/// Checks the acknowledgement frame that ends a logo or LCD stream
pub fn assert_write_complete(kind: &Kind, data: &[u8]) -> (r: Result<(), AjazzError>)
    ensures
        data@.len() != codes::ACK_PACKET_LENGTH ==> r == Err::<(), AjazzError>(AjazzError::BadData),
        data@.len() == codes::ACK_PACKET_LENGTH && !is_ack(data@) ==> r == Err::<(), AjazzError>(
            AjazzError::NoAck,
        ),
        data@.len() == codes::ACK_PACKET_LENGTH && is_ack(data@) ==> r is Ok,
{
    if data.len() != codes::ACK_PACKET_LENGTH {
        return Err(AjazzError::BadData);
    }
    if !kind.is_ack_ok(data) {
        return Err(AjazzError::NoAck);
    }
    Ok(())
}

/// The event a toggled flag at `index` produces, given its state before the toggle
pub open spec fn toggle_event(encoder: bool, was_on: bool, index: int) -> Event {
    if encoder {
        if was_on {
            Event::EncoderUp(index as u8)
        } else {
            Event::EncoderDown(index as u8)
        }
    } else {
        if was_on {
            Event::ButtonUp(index as u8)
        } else {
            Event::ButtonDown(index as u8)
        }
    }
}

/// Events of a transition bitmap applied to `state`, in ascending index order
pub open spec fn toggle_events(encoder: bool, state: Seq<bool>, changed: Seq<bool>) -> Seq<Event>
    decreases changed.len(),
{
    if changed.len() == 0 {
        seq![]
    } else {
        let i = changed.len() - 1;
        let before = toggle_events(encoder, state, changed.drop_last());
        if changed[i] {
            before.push(toggle_event(encoder, state[i], i))
        } else {
            before
        }
    }
}

/// `state` with every flag that `changed` raises inverted
pub open spec fn toggled(state: Seq<bool>, changed: Seq<bool>) -> Seq<bool> {
    Seq::new(
        state.len(),
        |i: int|
            if i < changed.len() && changed[i] {
                !state[i]
            } else {
                state[i]
            },
    )
}

/// Twist events for every encoder whose delta is not zero, in ascending index order
pub open spec fn twist_events(deltas: Seq<i8>) -> Seq<Event>
    decreases deltas.len(),
{
    if deltas.len() == 0 {
        seq![]
    } else {
        let i = deltas.len() - 1;
        let before = twist_events(deltas.drop_last());
        if deltas[i] != 0 {
            before.push(Event::EncoderTwist(i as u8, deltas[i]))
        } else {
            before
        }
    }
}

/// Whether an input fits the state it is applied to
pub open spec fn input_fits(input: InputView, buttons: Seq<bool>, encoders: Seq<bool>) -> bool {
    match input {
        InputView::ButtonStateChange(b) => b.len() <= buttons.len() && b.len() <= 256,
        InputView::EncoderStateChange(e) => e.len() <= encoders.len() && e.len() <= 256,
        InputView::EncoderTwist(t) => t.len() <= 256,
        InputView::NoData => true,
    }
}

/// Current pressed state of buttons and encoders
pub struct DeviceState {
    /// Pressed state of each button
    pub buttons: Vec<bool>,
    /// Pressed state of each encoder
    pub encoders: Vec<bool>,
}

/// Applies an input record to the state and returns the events it produces
pub fn handle_input_state_change(input: AjazzInput, current_state: &mut DeviceState) -> (r: Result<
    Vec<Event>,
    AjazzError,
>)
    requires
        input_fits(input@, old(current_state).buttons@, old(current_state).encoders@),
    ensures
        r is Ok,
        match input@ {
            InputView::ButtonStateChange(b) => {
                &&& r->Ok_0@ == toggle_events(false, old(current_state).buttons@, b)
                &&& final(current_state).buttons@ == toggled(old(current_state).buttons@, b)
                &&& final(current_state).encoders@ == old(current_state).encoders@
            },
            InputView::EncoderStateChange(e) => {
                &&& r->Ok_0@ == toggle_events(true, old(current_state).encoders@, e)
                &&& final(current_state).encoders@ == toggled(old(current_state).encoders@, e)
                &&& final(current_state).buttons@ == old(current_state).buttons@
            },
            InputView::EncoderTwist(t) => {
                &&& r->Ok_0@ == twist_events(t)
                &&& final(current_state).buttons@ == old(current_state).buttons@
                &&& final(current_state).encoders@ == old(current_state).encoders@
            },
            InputView::NoData => {
                &&& r->Ok_0@ == Seq::<Event>::empty()
                &&& final(current_state).buttons@ == old(current_state).buttons@
                &&& final(current_state).encoders@ == old(current_state).encoders@
            },
        },
{
    let mut updates: Vec<Event> = Vec::new();
    match input {
        AjazzInput::ButtonStateChange(buttons) => {
            toggle_flags(&buttons, &mut current_state.buttons, false, &mut updates);
        },
        AjazzInput::EncoderStateChange(encoders) => {
            toggle_flags(&encoders, &mut current_state.encoders, true, &mut updates);
        },
        AjazzInput::EncoderTwist(twist) => {
            let ghost t = twist@;
            let mut index: usize = 0;
            while index < twist.len()
                invariant
                    index <= twist@.len() <= 256,
                    t == twist@,
                    updates@ == twist_events(t.take(index as int)),
                decreases twist@.len() - index,
            {
                let change = twist[index];
                if change != 0 {
                    updates.push(Event::EncoderTwist(index as u8, change));
                }
                assert(t.take(index + 1).drop_last() =~= t.take(index as int));
                index = index + 1;
            }
            assert(t.take(index as int) =~= t);
        },
        AjazzInput::NoData => {},
    }
    Ok(updates)
}

/// Toggles every flag of `state` that `changed` raises and appends one event per toggle
fn toggle_flags(changed: &Vec<bool>, state: &mut Vec<bool>, encoder: bool, updates: &mut Vec<Event>)
    requires
        changed@.len() <= old(state)@.len(),
        changed@.len() <= 256,
        old(updates)@.len() == 0,
    ensures
        final(updates)@ == toggle_events(encoder, old(state)@, changed@),
        final(state)@ == toggled(old(state)@, changed@),
{
    let ghost start = state@;
    let ghost c = changed@;
    let mut index: usize = 0;
    assert(toggled(start, c.take(0)) =~= start);
    while index < changed.len()
        invariant
            index <= c.len(),
            c == changed@,
            c.len() <= start.len() <= state@.len(),
            c.len() <= 256,
            state@ == toggled(start, c.take(index as int)),
            updates@ == toggle_events(encoder, start, c.take(index as int)),
        decreases c.len() - index,
    {
        assert(c.take(index + 1).drop_last() =~= c.take(index as int));
        if changed[index] {
            let now = !state[index];
            state.set(index, now);
            if now {
                if encoder {
                    updates.push(Event::EncoderDown(index as u8));
                } else {
                    updates.push(Event::ButtonDown(index as u8));
                }
            } else {
                if encoder {
                    updates.push(Event::EncoderUp(index as u8));
                } else {
                    updates.push(Event::ButtonUp(index as u8));
                }
            }
        }
        index = index + 1;
        assert(state@ =~= toggled(start, c.take(index as int)));
    }
    assert(c.take(index as int) =~= c);
}

/// Button reader that keeps state of the device and returns events instead of transition bitmaps
pub struct DeviceStateReader {
    kind: Kind,
    states: DeviceState,
}

impl DeviceStateReader {
    pub closed spec fn kind(&self) -> Kind {
        self.kind
    }

    pub closed spec fn buttons(&self) -> Seq<bool> {
        self.states.buttons@
    }

    pub closed spec fn encoders(&self) -> Seq<bool> {
        self.states.encoders@
    }

    /// One state per key and per encoder of the kind
    pub open spec fn wf(&self) -> bool {
        &&& self.buttons().len() == self.kind().spec_key_count()
        &&& self.encoders().len() == self.kind().spec_encoder_count()
    }

    /// A reader for a device of the given kind, with everything released
    pub fn new(kind: Kind) -> (r: Self)
        ensures
            r.wf(),
            r.kind() == kind,
            r.buttons() == Seq::new(kind.spec_key_count() as nat, |_i: int| false),
            r.encoders() == Seq::new(kind.spec_encoder_count() as nat, |_i: int| false),
    {
        let buttons = vec![false; kind.key_count() as usize];
        let encoders = vec![false; kind.encoder_count() as usize];
        let r = DeviceStateReader { kind, states: DeviceState { buttons, encoders } };
        assert(r.buttons() =~= Seq::new(kind.spec_key_count() as nat, |_i: int| false));
        assert(r.encoders() =~= Seq::new(kind.spec_encoder_count() as nat, |_i: int| false));
        r
    }

    /// Parses an input report, updates the states and returns the events it produced
    pub fn read(&mut self, data: &[u8]) -> (r: Result<Vec<Event>, AjazzError>)
        requires
            old(self).wf(),
            data@.len() > codes::OFFSET_ACTION_CODE,
        ensures
            final(self).wf(),
            final(self).kind() == old(self).kind(),
            match old(self).kind().spec_parse_input(data@) {
                Ok(InputView::ButtonStateChange(b)) => {
                    &&& r is Ok
                    &&& r->Ok_0@ == toggle_events(false, old(self).buttons(), b)
                    &&& final(self).buttons() == toggled(old(self).buttons(), b)
                    &&& final(self).encoders() == old(self).encoders()
                },
                Ok(InputView::EncoderStateChange(e)) => {
                    &&& r is Ok
                    &&& r->Ok_0@ == toggle_events(true, old(self).encoders(), e)
                    &&& final(self).encoders() == toggled(old(self).encoders(), e)
                    &&& final(self).buttons() == old(self).buttons()
                },
                Ok(InputView::EncoderTwist(t)) => {
                    &&& r is Ok
                    &&& r->Ok_0@ == twist_events(t)
                    &&& final(self).buttons() == old(self).buttons()
                    &&& final(self).encoders() == old(self).encoders()
                },
                Ok(InputView::NoData) => {
                    &&& r is Ok
                    &&& r->Ok_0@ == Seq::<Event>::empty()
                    &&& final(self).buttons() == old(self).buttons()
                    &&& final(self).encoders() == old(self).encoders()
                },
                Err(e) => {
                    &&& r == Err::<Vec<Event>, AjazzError>(e)
                    &&& final(self).buttons() == old(self).buttons()
                    &&& final(self).encoders() == old(self).encoders()
                },
            },
    {
        let input = match self.kind.parse_input(data) {
            Ok(input) => input,
            Err(e) => return Err(e),
        };
        handle_input_state_change(input, &mut self.states)
    }
}

/// Commands issued one after the other put their frames on the wire as the concatenation of
/// each command's frames, in issue order, after the initialization frame, which is sent once,
/// before the first of them. `sessions[i]` is the session after the `i`-th command, which
/// emitted `frames[i]` and left `caches[i]` queued.
pub proof fn lemma_frames_in_issue_order(
    start: SessionView,
    sessions: Seq<Ajazz>,
    frames: Seq<Seq<Seq<u8>>>,
    caches: Seq<Seq<(u8, Seq<u8>)>>,
)
    requires
        sessions.len() > 0,
        frames.len() == sessions.len(),
        caches.len() == sessions.len(),
        sessions[0].after(start, frames[0], caches[0]),
        forall|i: int|
            0 < i < sessions.len() ==> #[trigger] sessions[i].after(sessions[i - 1]@, frames[i], caches[i]),
    ensures
        sessions.last()@.outgoing == start.outgoing + init_frames(start.kind, start.initialized)
            + frames.flatten(),
    decreases sessions.len(),
{
    let n = sessions.len();
    if n == 1 {
        assert(frames.flatten() =~= frames[0] + frames.drop_first().flatten());
        assert(frames.drop_first() =~= Seq::<Seq<Seq<u8>>>::empty());
        assert(frames.flatten() =~= frames[0]);
    } else {
        let prefix = sessions.drop_last();
        assert forall|i: int| 0 < i < prefix.len() implies #[trigger] prefix[i].after(
            prefix[i - 1]@,
            frames.drop_last()[i],
            caches.drop_last()[i],
        ) by {
            assert(sessions[i].after(sessions[i - 1]@, frames[i], caches[i]));
        }
        lemma_frames_in_issue_order(start, prefix, frames.drop_last(), caches.drop_last());
        let last = sessions.last();
        assert(last.after(sessions[n - 2]@, frames[n - 1], caches[n - 1]));
        let k = n - 2;
        if k > 0 {
            assert(sessions[k].after(sessions[k - 1]@, frames[k], caches[k]));
        }
        assert(sessions[n - 2]@.initialized);
        assert(prefix.last() == sessions[n - 2]);
        assert(init_frames(sessions[n - 2]@.kind, sessions[n - 2]@.initialized) =~= Seq::<Seq<u8>>::empty());
        frames.drop_last().lemma_flatten_push(frames.last());
        assert(frames.drop_last().push(frames.last()) =~= frames);
    }
}

/// Decides the retries of a connection: up to `attempts` tries in all
pub struct ConnectRetry {
    attempts: u8,
    failures: u8,
}

impl ConnectRetry {
    pub closed spec fn attempts(&self) -> u8 {
        self.attempts
    }

    pub closed spec fn failures(&self) -> u8 {
        self.failures
    }

    /// Retry budget of `attempts` tries; zero tries is not an operation the device supports
    pub fn new(attempts: u8) -> (r: Result<ConnectRetry, AjazzError>)
        ensures
            attempts == 0 ==> r == Err::<ConnectRetry, AjazzError>(AjazzError::UnsupportedOperation),
            attempts > 0 ==> r is Ok && r->Ok_0.attempts() == attempts && r->Ok_0.failures() == 0,
    {
        if attempts == 0 {
            return Err(AjazzError::UnsupportedOperation);
        }
        Ok(ConnectRetry { attempts, failures: 0 })
    }

    /// Records a failed try; true when another try is due (after a 100 ms pause)
    pub fn record_failure(&mut self) -> (again: bool)
        requires
            old(self).failures() < old(self).attempts(),
        ensures
            final(self).attempts() == old(self).attempts(),
            final(self).failures() == old(self).failures() + 1,
            again == (final(self).failures() < final(self).attempts()),
    {
        self.failures = self.failures + 1;
        self.failures < self.attempts
    }
}

/// Logical keys map to native keys below 18 on every kind.
pub proof fn lemma_device_key_bound(kind: Kind, key: u8)
    requires
        key < kind.spec_display_key_count(),
    ensures
        kind.spec_device_key(key) < 18,
{
    crate::info::lemma_device_key_tables();
}

struct ImageCache {
    key: u8,
    image_data: Vec<u8>,
}

/// Mathematical view of a session
pub struct SessionView {
    /// Kind of the device
    pub kind: Kind,
    /// Whether the initialization frame has been emitted
    pub initialized: bool,
    /// Key images waiting for the next flush, as (native key, encoded bytes), in queue order
    pub cache: Seq<(u8, Seq<u8>)>,
    /// Frames emitted and not yet taken by the transport, in issue order
    pub outgoing: Seq<Seq<u8>>,
}

// The cached images as (native key, bytes)
spec fn cache_view(cache: Seq<ImageCache>) -> Seq<(u8, Seq<u8>)> {
    cache.map_values(|c: ImageCache| (c.key, c.image_data@))
}

/// Per-device session state: the queued key images, the lazy initialization flag, and the frames
/// that commands have emitted for the transport to write, in issue order
pub struct Ajazz {
    kind: Kind,
    image_cache: Vec<ImageCache>,
    initialized: bool,
    outgoing: Vec<Vec<u8>>,
}

impl View for Ajazz {
    type V = SessionView;

    closed spec fn view(&self) -> SessionView {
        SessionView {
            kind: self.kind,
            initialized: self.initialized,
            cache: cache_view(self.image_cache@),
            outgoing: frames_view(self.outgoing@),
        }
    }
}

/// Frames of every cached image, announcement then reports, in queue order
fn cached_frames(kind: Kind, cache: &Vec<ImageCache>) -> (r: Vec<Vec<u8>>)
    requires
        forall|i: int| 0 <= i < cache@.len() ==> #[trigger] cache@[i].key < 0xff,
    ensures
        frames_view(r@) == cached_image_frames(kind, cache_view(cache@)),
{
    let ghost cv = cache_view(cache@);
    let mut out: Vec<Vec<u8>> = Vec::new();
    let mut i: usize = 0;
    assert(cv.take(0) =~= Seq::<(u8, Seq<u8>)>::empty());
    assert(frames_view(out@) =~= Seq::<Seq<u8>>::empty());
    while i < cache.len()
        invariant
            i <= cache@.len(),
            cv == cache_view(cache@),
            forall|j: int| 0 <= j < cache@.len() ==> #[trigger] cache@[j].key < 0xff,
            frames_view(out@) == cached_image_frames(kind, cv.take(i as int)),
        decreases cache@.len() - i,
    {
        let entry = &cache[i];
        let ghost before = frames_view(out@);
        let announce = kind.key_image_announce_packet(entry.key, entry.image_data.as_slice());
        out.push(announce);
        let mut reports = image_data_reports(
            entry.image_data.as_slice(),
            WriteImageParameters::for_kind(kind),
        );
        let ghost rv = frames_view(reports@);
        let ghost mid = out@;
        out.append(&mut reports);
        assert(frames_view(out@) =~= frames_view(mid) + rv);
        assert(frames_view(mid) =~= before.push(announce@));
        assert(cv.take(i + 1).drop_last() =~= cv.take(i as int));
        assert(cv.take(i + 1).last() == (entry.key, entry.image_data@));
        i = i + 1;
        assert(frames_view(out@) =~= cached_image_frames(kind, cv.take(i as int)));
    }
    assert(cv.take(i as int) =~= cv);
    out
}

impl Ajazz {
    /// Every queued image targets a native key below 0xFF
    pub open spec fn wf(&self) -> bool {
        forall|i: int| 0 <= i < self@.cache.len() ==> #[trigger] self@.cache[i].0 < 0xff
    }

    /// The state after a command: initialized, `frames` emitted after the initialization frame
    /// if it was still owed, the image queue replaced by `cache`
    pub open spec fn after(self, before: SessionView, frames: Seq<Seq<u8>>, cache: Seq<(u8, Seq<u8>)>) -> bool {
        &&& self@.kind == before.kind
        &&& self@.initialized
        &&& self@.cache == cache
        &&& self@.outgoing == before.outgoing + init_frames(before.kind, before.initialized) + frames
        &&& self.wf()
    }

    /// A fresh session for a device of the given kind
    pub fn new(kind: Kind) -> (r: Ajazz)
        ensures
            r@.kind == kind,
            !r@.initialized,
            r@.cache.len() == 0,
            r@.outgoing.len() == 0,
            r.wf(),
    {
        Ajazz { kind, image_cache: Vec::new(), initialized: false, outgoing: Vec::new() }
    }

    /// Returns kind of the device
    pub fn kind(&self) -> (r: Kind)
        ensures
            r == self@.kind,
    {
        self.kind
    }

    /// Hands the emitted frames to the transport, in issue order
    pub fn take_outgoing(&mut self) -> (r: Vec<Vec<u8>>)
        requires
            old(self).wf(),
        ensures
            frames_view(r@) == old(self)@.outgoing,
            final(self)@.outgoing.len() == 0,
            final(self)@.kind == old(self)@.kind,
            final(self)@.initialized == old(self)@.initialized,
            final(self)@.cache == old(self)@.cache,
            final(self).wf(),
    {
        let mut r: Vec<Vec<u8>> = Vec::new();
        r.append(&mut self.outgoing);
        assert(frames_view(self.outgoing@) =~= Seq::<Seq<u8>>::empty());
        assert(frames_view(r@) =~= old(self)@.outgoing);
        assert(self@.cache =~= old(self)@.cache);
        assert forall|i: int| 0 <= i < self@.cache.len() implies #[trigger] self@.cache[i].0 < 0xff by {
            assert(self@.cache[i] == old(self)@.cache[i]);
        }
        r
    }

    fn emit(&mut self, frame: Vec<u8>)
        ensures
            final(self)@.outgoing == old(self)@.outgoing.push(frame@),
            final(self)@.kind == old(self)@.kind,
            final(self)@.initialized == old(self)@.initialized,
            final(self)@.cache == old(self)@.cache,
    {
        let ghost before = frames_view(self.outgoing@);
        self.outgoing.push(frame);
        assert(frames_view(self.outgoing@) =~= before.push(frame@));
    }

    fn emit_all(&mut self, frames: Vec<Vec<u8>>)
        ensures
            final(self)@.outgoing == old(self)@.outgoing + frames_view(frames@),
            final(self)@.kind == old(self)@.kind,
            final(self)@.initialized == old(self)@.initialized,
            final(self)@.cache == old(self)@.cache,
    {
        let mut frames = frames;
        let ghost before = frames_view(self.outgoing@);
        let ghost added = frames_view(frames@);
        self.outgoing.append(&mut frames);
        assert(frames_view(self.outgoing@) =~= before + added);
    }

    /// Emits the initialization frame on the first command of the session
    pub fn initialize(&mut self)
        requires
            old(self).wf(),
        ensures
            final(self).after(old(self)@, seq![], old(self)@.cache),
    {
        if self.initialized {
            assert(old(self)@.outgoing + seq![] + seq![] =~= old(self)@.outgoing);
            return;
        }
        self.initialized = true;
        let packet = self.kind.initialize_packet();
        self.emit(packet);
        assert(self@.outgoing =~= old(self)@.outgoing + init_frames(old(self)@.kind, false) + seq![]);
    }

    /// Sleeps the device
    pub fn sleep(&mut self)
        requires
            old(self).wf(),
        ensures
            final(self).after(old(self)@, seq![request_frame(old(self)@.kind, Request::Sleep)], old(self)@.cache),
    {
        self.initialize();
        let ghost mid = self@.outgoing;
        let packet = self.kind.sleep_packet();
        self.emit(packet);
        assert(self@.outgoing =~= mid + seq![request_frame(old(self)@.kind, Request::Sleep)]);
    }

    /// Make periodic events to the device, to keep it alive
    pub fn keep_alive(&mut self)
        requires
            old(self).wf(),
        ensures
            final(self).after(old(self)@, seq![request_frame(old(self)@.kind, Request::KeepAlive)], old(self)@.cache),
    {
        self.initialize();
        let ghost mid = self@.outgoing;
        let packet = self.kind.keep_alive_packet();
        self.emit(packet);
        assert(self@.outgoing =~= mid + seq![request_frame(old(self)@.kind, Request::KeepAlive)]);
    }

    /// Shutdown the device
    pub fn shutdown(&mut self)
        requires
            old(self).wf(),
        ensures
            final(self).after(
                old(self)@,
                seq![
                    request_frame(old(self)@.kind, Request::Shutdown),
                    request_frame(old(self)@.kind, Request::Sleep),
                ],
                old(self)@.cache,
            ),
    {
        self.initialize();
        let ghost mid = self@.outgoing;
        let packet = self.kind.shutdown_packet();
        self.emit(packet);
        let packet = self.kind.sleep_packet();
        self.emit(packet);
        assert(self@.outgoing =~= mid + seq![
            request_frame(old(self)@.kind, Request::Shutdown),
            request_frame(old(self)@.kind, Request::Sleep),
        ]);
    }

    /// Sets brightness of the device, value range is 0 - 100
    pub fn set_brightness(&mut self, percent: u8)
        requires
            old(self).wf(),
        ensures
            final(self).after(
                old(self)@,
                seq![request_frame(old(self)@.kind, Request::Brightness(percent))],
                old(self)@.cache,
            ),
    {
        self.initialize();
        let ghost mid = self@.outgoing;
        let packet = self.kind.brightness_packet(percent);
        self.emit(packet);
        assert(self@.outgoing =~= mid + seq![request_frame(old(self)@.kind, Request::Brightness(percent))]);
    }

    /// Sets a button's image to blank; on v2 devices the change shows after a flush
    pub fn clear_button_image(&mut self, key: u8) -> (r: Result<(), AjazzError>)
        requires
            old(self).wf(),
        ensures
            key >= old(self)@.kind.spec_display_key_count() ==> {
                &&& r == Err::<(), AjazzError>(AjazzError::InvalidKeyIndex(key))
                &&& final(self).after(old(self)@, seq![], old(self)@.cache)
            },
            key < old(self)@.kind.spec_display_key_count() ==> {
                &&& r is Ok
                &&& final(self).after(
                    old(self)@,
                    seq![
                        request_frame(
                            old(self)@.kind,
                            Request::ClearButtonImage(old(self)@.kind.spec_device_key(key)),
                        ),
                    ],
                    old(self)@.cache,
                )
            },
    {
        self.initialize();
        let ghost mid = self@.outgoing;
        let device_key = match self.kind.opendeck_to_device_key(key) {
            Ok(k) => k,
            Err(e) => {
                assert(self@.outgoing =~= old(self)@.outgoing + init_frames(old(self)@.kind, old(self)@.initialized) + seq![]);
                return Err(e);
            },
        };
        let packet = self.kind.clear_button_image_packet(device_key);
        self.emit(packet);
        assert(self@.outgoing =~= mid + seq![
            request_frame(old(self)@.kind, Request::ClearButtonImage(old(self)@.kind.spec_device_key(key))),
        ]);
        Ok(())
    }

    /// Clears every key image; v2 devices get the flush that commits it right away
    pub fn clear_all_button_images(&mut self) -> (r: Result<(), AjazzError>)
        requires
            old(self).wf(),
        ensures
            r is Ok,
            final(self).after(old(self)@, clear_all_frames(old(self)@.kind), old(self)@.cache),
    {
        self.initialize();
        let ghost mid = self@.outgoing;
        let packet = self.kind.clear_button_image_packet(codes::CMD_CLEAR_ALL);
        self.emit(packet);
        if self.kind.is_v2_api() {
            let packet = self.kind.flush_packet();
            self.emit(packet);
        }
        assert(self@.outgoing =~= mid + clear_all_frames(old(self)@.kind));
        Ok(())
    }

    /// Queues a key image; it shows after the next flush
    pub fn set_button_image_data(&mut self, key: u8, image_data: &[u8]) -> (r: Result<(), AjazzError>)
        requires
            old(self).wf(),
        ensures
            key >= old(self)@.kind.spec_display_key_count() ==> {
                &&& r == Err::<(), AjazzError>(AjazzError::InvalidKeyIndex(key))
                &&& final(self).after(old(self)@, seq![], old(self)@.cache)
            },
            key < old(self)@.kind.spec_display_key_count() ==> {
                &&& r is Ok
                &&& final(self).after(
                    old(self)@,
                    seq![],
                    old(self)@.cache.push((old(self)@.kind.spec_device_key(key), image_data@)),
                )
            },
    {
        self.initialize();
        self.write_image_to_cache(key, image_data)
    }

    fn write_image_to_cache(&mut self, key: u8, image_data: &[u8]) -> (r: Result<(), AjazzError>)
        requires
            old(self).wf(),
        ensures
            final(self)@.kind == old(self)@.kind,
            final(self)@.initialized == old(self)@.initialized,
            final(self)@.outgoing == old(self)@.outgoing,
            final(self).wf(),
            key >= old(self)@.kind.spec_display_key_count() ==> {
                &&& r == Err::<(), AjazzError>(AjazzError::InvalidKeyIndex(key))
                &&& final(self)@.cache == old(self)@.cache
            },
            key < old(self)@.kind.spec_display_key_count() ==> {
                &&& r is Ok
                &&& final(self)@.cache == old(self)@.cache.push(
                    (old(self)@.kind.spec_device_key(key), image_data@),
                )
            },
    {
        let device_key = match self.kind.opendeck_to_device_key(key) {
            Ok(k) => k,
            Err(e) => return Err(e),
        };
        proof {
            lemma_device_key_bound(self.kind, key);
        }
        let ghost before = cache_view(self.image_cache@);
        let mut image_vec: Vec<u8> = Vec::new();
        let mut i: usize = 0;
        while i < image_data.len()
            invariant
                i <= image_data@.len(),
                image_vec@ == image_data@.take(i as int),
            decreases image_data@.len() - i,
        {
            image_vec.push(image_data[i]);
            i = i + 1;
            assert(image_vec@ =~= image_data@.take(i as int));
        }
        assert(image_data@.take(i as int) =~= image_data@);
        self.image_cache.push(ImageCache { key: device_key, image_data: image_vec });
        assert(cache_view(self.image_cache@) =~= before.push((device_key, image_data@)));
        assert forall|i: int| 0 <= i < self@.cache.len() implies #[trigger] self@.cache[i].0 < 0xff by {
            if i < before.len() {
                assert(self@.cache[i] == old(self)@.cache[i]);
            }
        }
        Ok(())
    }

    /// Writes every queued key image, then the flush command, and empties the queue;
    /// does nothing more than initialization when the queue is empty
    pub fn flush(&mut self) -> (r: Result<(), AjazzError>)
        requires
            old(self).wf(),
        ensures
            r is Ok,
            final(self).after(old(self)@, flush_frames(old(self)@.kind, old(self)@.cache), seq![]),
    {
        self.initialize();
        if self.image_cache.len() == 0 {
            assert(self@.outgoing =~= old(self)@.outgoing + init_frames(old(self)@.kind, old(self)@.initialized) + seq![]);
            assert(self@.cache =~= Seq::<(u8, Seq<u8>)>::empty());
            return Ok(());
        }
        let ghost mid = self@.outgoing;
        assert forall|i: int| 0 <= i < self.image_cache@.len() implies #[trigger] self.image_cache@[i].key
            < 0xff by {
            assert(self@.cache[i].0 == self.image_cache@[i].key);
        }
        let frames = cached_frames(self.kind, &self.image_cache);
        self.emit_all(frames);
        let packet = self.kind.flush_packet();
        self.emit(packet);
        self.image_cache = Vec::new();
        assert(self@.cache =~= Seq::<(u8, Seq<u8>)>::empty());
        assert(self@.outgoing =~= mid + flush_frames(old(self)@.kind, old(self)@.cache));
        Ok(())
    }

    /// Resets the device: full brightness and every key image cleared
    pub fn reset(&mut self) -> (r: Result<(), AjazzError>)
        requires
            old(self).wf(),
        ensures
            r is Ok,
            final(self).after(
                old(self)@,
                seq![request_frame(old(self)@.kind, Request::Brightness(100))] + clear_all_frames(
                    old(self)@.kind,
                ),
                old(self)@.cache,
            ),
    {
        self.initialize();
        let ghost mid = self@.outgoing;
        self.set_brightness(100);
        let r = self.clear_all_button_images();
        assert(self@.outgoing =~= mid + (seq![request_frame(old(self)@.kind, Request::Brightness(100))]
            + clear_all_frames(old(self)@.kind)));
        r
    }

    /// Encodes an image in the kind's key format and queues it; it shows after the next flush
    pub fn set_button_image(&mut self, key: u8, image: &Raster) -> (r: Result<(), AjazzError>)
        requires
            old(self).wf(),
            image.wf(),
        ensures
            key >= old(self)@.kind.spec_display_key_count() ==> {
                &&& r == Err::<(), AjazzError>(AjazzError::InvalidKeyIndex(key))
                &&& final(self).after(old(self)@, seq![], old(self)@.cache)
            },
            key < old(self)@.kind.spec_display_key_count() ==> {
                &&& r is Ok
                &&& final(self).after(
                    old(self)@,
                    seq![],
                    old(self)@.cache.push(
                        (
                            old(self)@.kind.spec_device_key(key),
                            encoded_image(old(self)@.kind.spec_key_image_format(), image@),
                        ),
                    ),
                )
            },
    {
        self.initialize();
        let image_data = match convert_image(self.kind, image) {
            Ok(data) => data,
            Err(e) => return Err(AjazzError::ImageError(e)),
        };
        self.write_image_to_cache(key, image_data.as_slice())
    }

    /// Streams an encoded boot logo: the logo announcement, a flush, then the image reports.
    /// The device answers with an acknowledgement frame, see [assert_write_complete].
    pub fn set_logo_image_data(&mut self, image_data: &[u8]) -> (r: Result<(), AjazzError>)
        requires
            old(self).wf(),
        ensures
            old(self)@.kind.spec_boot_logo_size() is None ==> {
                &&& r == Err::<(), AjazzError>(AjazzError::UnsupportedOperation)
                &&& final(self).after(old(self)@, seq![], old(self)@.cache)
            },
            old(self)@.kind.spec_boot_logo_size() is Some ==> {
                &&& r is Ok
                &&& final(self).after(old(self)@, logo_frames(old(self)@.kind, image_data@), old(self)@.cache)
            },
    {
        self.initialize();
        if self.kind.boot_logo_size().is_none() {
            assert(self@.outgoing =~= old(self)@.outgoing + init_frames(old(self)@.kind, old(self)@.initialized) + seq![]);
            return Err(AjazzError::UnsupportedOperation);
        }
        let ghost mid = self@.outgoing;
        let packet = self.kind.logo_image_packet(image_data);
        self.emit(packet);
        let packet = self.kind.flush_packet();
        self.emit(packet);
        let reports = image_data_reports(image_data, WriteImageParameters::for_kind(self.kind));
        self.emit_all(reports);
        assert(self@.outgoing =~= mid + logo_frames(old(self)@.kind, image_data@));
        Ok(())
    }

    /// Encodes an image in the kind's logo format and streams it as the boot logo
    pub fn set_logo_image(&mut self, image: &Raster) -> (r: Result<(), AjazzError>)
        requires
            old(self).wf(),
            image.wf(),
        ensures
            old(self)@.kind.spec_boot_logo_size() is None ==> {
                &&& r == Err::<(), AjazzError>(AjazzError::UnsupportedOperation)
                &&& final(self).after(old(self)@, seq![], old(self)@.cache)
            },
            old(self)@.kind.spec_boot_logo_size() is Some ==> {
                &&& r is Ok
                &&& final(self).after(
                    old(self)@,
                    logo_frames(
                        old(self)@.kind,
                        encoded_image(old(self)@.kind.spec_logo_image_format(), image@),
                    ),
                    old(self)@.cache,
                )
            },
    {
        self.initialize();
        proof {
            assert(self@.outgoing =~= old(self)@.outgoing + init_frames(old(self)@.kind, old(self)@.initialized) + seq![]);
        }
        if self.kind.boot_logo_size().is_none() {
            return Err(AjazzError::UnsupportedOperation);
        }
        let format = self.kind.logo_image_format();
        assert(3 * format.size.0 * format.size.1 <= 3 * 854 * 480) by (nonlinear_arith)
            requires
                format.size.0 <= 854,
                format.size.1 <= 480,
        ;
        let image_data = match convert_image_with_format(format, image) {
            Ok(data) => data,
            Err(e) => return Err(AjazzError::ImageError(e)),
        };
        let ghost mid = self@;
        let r = self.set_logo_image_data(image_data.as_slice());
        assert(init_frames(mid.kind, mid.initialized) =~= Seq::<Seq<u8>>::empty());
        assert(self@.outgoing =~= old(self)@.outgoing + init_frames(old(self)@.kind, old(self)@.initialized)
            + logo_frames(old(self)@.kind, image_data@));
        r
    }

    /// Writes an image rect to the LCD strip (AKP05 only)
    pub fn write_lcd(&mut self, x: u16, y: u16, rect: &ImageRect) -> (r: Result<(), AjazzError>)
        requires
            old(self).wf(),
        ensures
            !(old(self)@.kind is Akp05) ==> {
                &&& r == Err::<(), AjazzError>(AjazzError::UnsupportedOperation)
                &&& final(self)@ == old(self)@
            },
            old(self)@.kind is Akp05 ==> {
                &&& r is Ok
                &&& final(self).after(old(self)@, image_reports(rect.data@, 1024, 1008), old(self)@.cache)
            },
    {
        match self.kind {
            Kind::Akp05 => {},
            _ => return Err(AjazzError::UnsupportedOperation),
        }
        self.initialize();
        let ghost mid = self@.outgoing;
        let parameters = WriteImageParameters { image_report_length: 1024, image_report_payload_length: 1024 - 16 };
        let reports = image_data_reports(rect.data.as_slice(), parameters);
        self.emit_all(reports);
        assert(self@.outgoing =~= mid + image_reports(rect.data@, 1024, 1008));
        Ok(())
    }

    /// Writes encoded image data to the LCD strip as a full fill (AKP05 only)
    pub fn write_lcd_fill(&mut self, image_data: &[u8]) -> (r: Result<(), AjazzError>)
        requires
            old(self).wf(),
        ensures
            !(old(self)@.kind is Akp05) ==> {
                &&& r == Err::<(), AjazzError>(AjazzError::UnsupportedOperation)
                &&& final(self)@ == old(self)@
            },
            old(self)@.kind is Akp05 ==> {
                &&& r is Ok
                &&& final(self).after(old(self)@, image_reports(image_data@, 1024, 1016), old(self)@.cache)
            },
    {
        match self.kind {
            Kind::Akp05 => {},
            _ => return Err(AjazzError::UnsupportedOperation),
        }
        self.initialize();
        let ghost mid = self@.outgoing;
        let parameters = WriteImageParameters { image_report_length: 1024, image_report_payload_length: 1024 - 8 };
        let reports = image_data_reports(image_data, parameters);
        self.emit_all(reports);
        assert(self@.outgoing =~= mid + image_reports(image_data@, 1024, 1016));
        Ok(())
    }

    /// Returns device state reader for this device
    pub fn get_reader(&self) -> (r: DeviceStateReader)
        ensures
            r.wf(),
            r.kind() == self@.kind,
            r.buttons() == Seq::new(self@.kind.spec_key_count() as nat, |_i: int| false),
            r.encoders() == Seq::new(self@.kind.spec_encoder_count() as nat, |_i: int| false),
    {
        DeviceStateReader::new(self.kind)
    }
}

} // verus!
