use vstd::prelude::*;

use crate::info::Kind;

verus! {

/// Six-byte framing header that starts every request
pub open spec fn request_header() -> Seq<u8> {
    seq![0x00u8, 0x43, 0x52, 0x54, 0x00, 0x00]
}

/// `n` zero bytes
pub open spec fn zeros(n: nat) -> Seq<u8> {
    Seq::new(n, |_i: int| 0u8)
}

/// The commands that the driver sends, with their arguments
pub enum Request {
    /// `DIS`: wakes the device up for the session
    Initialize,
    /// `LIG`: sets the brightness in percent
    Brightness(u8),
    /// `CONNECT`: keeps the device awake
    KeepAlive,
    /// `HAN`: puts the device to sleep
    Sleep,
    /// `CLE..DC`: shuts the displays down
    Shutdown,
    /// `CLE`: clears the image of a native key, or of all keys with 0xFF
    ClearButtonImage(u8),
    /// `STP`: makes queued image updates visible
    Flush,
    /// `BAT`: announces an image payload of the given length for a key slot
    ImageAnnounce(u8, nat),
    /// `LOG`: announces a boot logo payload of the given length
    LogoImage(nat),
}

/// Argument byte of the clear command for the given native key
pub open spec fn clear_key_argument(kind: Kind, key: u8) -> u8 {
    let k = match kind.spec_clear_slot_v1(key) {
        Some(i) => i,
        None => key,
    };
    if k == 0xff {
        0xff
    } else {
        (k + 1) as u8
    }
}

/// High byte of a 16-bit big-endian length (truncated to 16 bits)
pub open spec fn length_high(len: nat) -> u8 {
    (len / 256 % 256) as u8
}

/// Low byte of a 16-bit big-endian length
pub open spec fn length_low(len: nat) -> u8 {
    (len % 256) as u8
}

/// Command tag and arguments of a request, after the framing header
pub open spec fn request_command(kind: Kind, r: Request) -> Seq<u8> {
    match r {
        Request::Initialize => seq![0x44u8, 0x49, 0x53, 0x00, 0x00],
        Request::Brightness(p) => seq![0x4cu8, 0x49, 0x47, 0x00, 0x00, p],
        Request::KeepAlive => seq![0x43u8, 0x4F, 0x4E, 0x4E, 0x45, 0x43, 0x54],
        Request::Sleep => seq![0x48u8, 0x41, 0x4E],
        Request::Shutdown => seq![0x43u8, 0x4C, 0x45, 0x00, 0x00, 0x44, 0x43],
        Request::ClearButtonImage(key) => seq![
            0x43u8,
            0x4c,
            0x45,
            0x00,
            0x00,
            0x00,
            clear_key_argument(kind, key),
        ],
        Request::Flush => seq![0x53u8, 0x54, 0x50],
        Request::ImageAnnounce(index, len) => seq![
            0x42u8,
            0x41,
            0x54,
            0x00,
            0x00,
            length_high(len),
            length_low(len),
            index,
        ],
        Request::LogoImage(len) => if kind.spec_is_v2_api() {
            seq![0x4cu8, 0x4f, 0x47, 0x00, 0x00, length_high(len), length_low(len)]
        } else {
            seq![0x4cu8, 0x4f, 0x47, 0x00, 0x12, 0xc3, 0xc0, 0x01]
        },
    }
}

/// The full frame of a request: header, command, zero padding up to the frame length
pub open spec fn request_frame(kind: Kind, r: Request) -> Seq<u8> {
    kind.spec_pad(request_header() + request_command(kind, r))
}

/// The framing that every request frame of a kind has
pub open spec fn is_framed(kind: Kind, frame: Seq<u8>) -> bool {
    &&& frame.len() == kind.spec_packet_length() + 1
    &&& frame.subrange(0, 6) == request_header()
}

/// Every request frame is exactly one frame long and starts with the framing header.
pub proof fn lemma_request_frame_is_framed(kind: Kind, r: Request)
    ensures
        is_framed(kind, request_frame(kind, r)),
{
    let body = request_header() + request_command(kind, r);
    assert(body.len() <= 14);
    assert(request_frame(kind, r).subrange(0, 6) =~= request_header());
}

/// The brightness frame is one frame long and carries the percentage at byte 11.
pub proof fn lemma_brightness_frame(kind: Kind, percent: u8)
    ensures
        request_frame(kind, Request::Brightness(percent)).len() == (if kind.spec_is_v2_api() {
            1025int
        } else {
            513int
        }),
        request_frame(kind, Request::Brightness(percent))[11] == percent,
{
    let body = request_header() + request_command(kind, Request::Brightness(percent));
    assert(body.len() == 12);
    assert(body[11] == percent);
}

/// Appends the framing header in front of a command
pub fn format_request(cmd: &[u8]) -> (r: Vec<u8>)
    ensures
        r@ == request_header() + cmd@,
{
    let mut buf: Vec<u8> = Vec::new();
    buf.push(0x00);
    buf.push(0x43);
    buf.push(0x52);
    buf.push(0x54);
    buf.push(0x00);
    buf.push(0x00);
    let mut i: usize = 0;
    while i < cmd.len()
        invariant
            i <= cmd@.len(),
            buf@ == request_header() + cmd@.subrange(0, i as int),
        decreases cmd@.len() - i,
    {
        buf.push(cmd[i]);
        i = i + 1;
        assert(buf@ =~= request_header() + cmd@.subrange(0, i as int));
    }
    assert(cmd@.subrange(0, i as int) =~= cmd@);
    buf
}

impl Kind {
    /// `s` followed by zero bytes up to the frame length
    pub open spec fn spec_pad(self, s: Seq<u8>) -> Seq<u8> {
        s + zeros((self.spec_packet_length() + 1 - s.len()) as nat)
    }

    /// Length of a request frame without its report-ID byte
    pub fn packet_length(&self) -> (r: usize)
        ensures
            r == self.spec_packet_length(),
    {
        if self.is_v2_api() {
            1024
        } else {
            512
        }
    }

    /// Extends buffer up to required packet length
    pub fn pad_packet(&self, buf: &mut Vec<u8>)
        requires
            old(buf)@.len() <= self.spec_packet_length() + 1,
        ensures
            final(buf)@ == self.spec_pad(old(buf)@),
    {
        let length = self.packet_length() + 1;
        let ghost start = buf@;
        while buf.len() < length
            invariant
                start.len() <= buf@.len() <= length,
                length == self.spec_packet_length() + 1,
                buf@ == start + zeros((buf@.len() - start.len()) as nat),
            decreases length - buf@.len(),
        {
            buf.push(0x00);
            assert(buf@ =~= start + zeros((buf@.len() - start.len()) as nat));
        }
    }

    fn padded_request(&self, cmd: &[u8]) -> (r: Vec<u8>)
        requires
            cmd@.len() <= 8,
        ensures
            r@ == self.spec_pad(request_header() + cmd@),
    {
        let mut buf = format_request(cmd);
        self.pad_packet(&mut buf);
        buf
    }

    /// Frame that sets the brightness, value range is 0 - 100
    pub fn brightness_packet(&self, percent: u8) -> (r: Vec<u8>)
        ensures
            r@ == request_frame(*self, Request::Brightness(percent)),
    {
        let cmd: [u8; 6] = [0x4c, 0x49, 0x47, 0x00, 0x00, percent];
        let r = self.padded_request(cmd.as_slice());
        assert(cmd@ =~= request_command(*self, Request::Brightness(percent)));
        r
    }

    /// Frame that keeps the device awake
    pub fn keep_alive_packet(&self) -> (r: Vec<u8>)
        ensures
            r@ == request_frame(*self, Request::KeepAlive),
    {
        let cmd: [u8; 7] = [0x43, 0x4F, 0x4E, 0x4E, 0x45, 0x43, 0x54];
        let r = self.padded_request(cmd.as_slice());
        assert(cmd@ =~= request_command(*self, Request::KeepAlive));
        r
    }

    /// Frame that initializes the device
    pub fn initialize_packet(&self) -> (r: Vec<u8>)
        ensures
            r@ == request_frame(*self, Request::Initialize),
    {
        let cmd: [u8; 5] = [0x44, 0x49, 0x53, 0x00, 0x00];
        let r = self.padded_request(cmd.as_slice());
        assert(cmd@ =~= request_command(*self, Request::Initialize));
        r
    }

    /// Frame that puts the device to sleep
    pub fn sleep_packet(&self) -> (r: Vec<u8>)
        ensures
            r@ == request_frame(*self, Request::Sleep),
    {
        let cmd: [u8; 3] = [0x48, 0x41, 0x4E];
        let r = self.padded_request(cmd.as_slice());
        assert(cmd@ =~= request_command(*self, Request::Sleep));
        r
    }

    /// Frame that shuts the device down
    pub fn shutdown_packet(&self) -> (r: Vec<u8>)
        ensures
            r@ == request_frame(*self, Request::Shutdown),
    {
        let cmd: [u8; 7] = [0x43, 0x4C, 0x45, 0x00, 0x00, 0x44, 0x43];
        let r = self.padded_request(cmd.as_slice());
        assert(cmd@ =~= request_command(*self, Request::Shutdown));
        r
    }

    /// Frame that clears the image of a native key (0xFF: every key)
    pub fn clear_button_image_packet(&self, key: u8) -> (r: Vec<u8>)
        ensures
            r@ == request_frame(*self, Request::ClearButtonImage(key)),
    {
        let slot = match self.clear_slot_v1(key) {
            Some(i) => i,
            None => key,
        };
        let arg = if slot == 0xff {
            0xff
        } else {
            slot + 1
        };
        let cmd: [u8; 7] = [0x43, 0x4c, 0x45, 0x00, 0x00, 0x00, arg];
        let r = self.padded_request(cmd.as_slice());
        assert(cmd@ =~= request_command(*self, Request::ClearButtonImage(key)));
        r
    }

    /// Frame that makes queued image updates visible
    pub fn flush_packet(&self) -> (r: Vec<u8>)
        ensures
            r@ == request_frame(*self, Request::Flush),
    {
        let cmd: [u8; 3] = [0x53, 0x54, 0x50];
        let r = self.padded_request(cmd.as_slice());
        assert(cmd@ =~= request_command(*self, Request::Flush));
        r
    }

    /// Frame that announces an image payload for the given key slot
    pub fn image_announce_packet(&self, index: u8, image_data: &[u8]) -> (r: Vec<u8>)
        ensures
            r@ == request_frame(*self, Request::ImageAnnounce(index, image_data@.len())),
    {
        let len = image_data.len();
        let cmd: [u8; 8] = [
            0x42,
            0x41,
            0x54,
            0x00,
            0x00,
            (len / 256 % 256) as u8,
            (len % 256) as u8,
            index,
        ];
        let r = self.padded_request(cmd.as_slice());
        assert(cmd@ =~= request_command(*self, Request::ImageAnnounce(index, image_data@.len())));
        r
    }

    /// Frame that announces the image of a native key
    pub fn key_image_announce_packet(&self, key: u8, image_data: &[u8]) -> (r: Vec<u8>)
        requires
            key < 0xff,
        ensures
            r@ == request_frame(
                *self,
                Request::ImageAnnounce(self.spec_key_image_slot(key), image_data@.len()),
            ),
    {
        let index = match self.announce_slot_v1(key) {
            Some(i) => i,
            None => key,
        };
        self.image_announce_packet(index + 1, image_data)
    }

    /// Frame that announces a boot logo payload
    pub fn logo_image_packet(&self, image_data: &[u8]) -> (r: Vec<u8>)
        ensures
            r@ == request_frame(*self, Request::LogoImage(image_data@.len())),
    {
        if self.is_v2_api() {
            let len = image_data.len();
            let cmd: [u8; 7] = [
                0x4c,
                0x4f,
                0x47,
                0x00,
                0x00,
                (len / 256 % 256) as u8,
                (len % 256) as u8,
            ];
            let r = self.padded_request(cmd.as_slice());
            assert(cmd@ =~= request_command(*self, Request::LogoImage(image_data@.len())));
            r
        } else {
            let cmd: [u8; 8] = [0x4c, 0x4f, 0x47, 0x00, 0x12, 0xc3, 0xc0, 0x01];
            let r = self.padded_request(cmd.as_slice());
            assert(cmd@ =~= request_command(*self, Request::LogoImage(image_data@.len())));
            r
        }
    }
}

} // verus!
