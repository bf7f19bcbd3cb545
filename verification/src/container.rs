use vstd::prelude::*;

verus! {

/// The kind of elementary stream a container track carries.
#[derive(Clone, Copy, PartialEq, Eq, Structural, Debug)]
pub enum StreamKind {
    Video,
    Audio,
}

/// One encoded packet as committed to the container: the index of the track
/// it belongs to and its presentation timestamp.
#[derive(Clone, Copy, PartialEq, Eq, Structural, Debug)]
pub struct Packet {
    pub stream: usize,
    pub pts: i64,
}

/// Mathematical model of a container writer: the output path, the declared
/// tracks, and the framing state (header, packet log, trailer).
#[verifier::ext_equal]
pub ghost struct WriterModel {
    pub path: Seq<u8>,
    pub streams: Seq<StreamKind>,
    pub header_written: bool,
    pub packets: Seq<Packet>,
    pub trailer_written: bool,
}

impl WriterModel {
    /// Framing is well formed: packets and the trailer exist only after the
    /// header, and every packet names a declared track.
    pub open spec fn wf(self) -> bool {
        &&& (self.packets.len() > 0 ==> self.header_written)
        &&& (self.trailer_written ==> self.header_written)
        &&& forall|i: int|
            0 <= i < self.packets.len() ==> 0 <= #[trigger] self.packets[i].stream
                < self.streams.len()
    }
}

/// A container writer for one output file.  Tracks are declared first, then
/// the header is committed, then packets are interleaved, then the trailer is
/// committed exactly once; the contracts of the methods enforce that order.
pub struct ContainerWriter {
    path: Vec<u8>,
    streams: Vec<StreamKind>,
    header_written: bool,
    packets: Vec<Packet>,
    trailer_written: bool,
}

impl View for ContainerWriter {
    type V = WriterModel;

    closed spec fn view(&self) -> WriterModel {
        WriterModel {
            path: self.path@,
            streams: self.streams@,
            header_written: self.header_written,
            packets: self.packets@,
            trailer_written: self.trailer_written,
        }
    }
}

impl ContainerWriter {
    /// Creates a writer for the given non-empty output path, with no tracks,
    /// no header, no packets and no trailer.
    pub fn open(path: Vec<u8>) -> (w: ContainerWriter)
        requires
            path@.len() > 0,
        ensures
            w@ == (WriterModel {
                path: path@,
                streams: Seq::<StreamKind>::empty(),
                header_written: false,
                packets: Seq::<Packet>::empty(),
                trailer_written: false,
            }),
    {
        ContainerWriter {
            path,
            streams: Vec::new(),
            header_written: false,
            packets: Vec::new(),
            trailer_written: false,
        }
    }

    /// Declares one more track.  Tracks can only be added before the header
    /// is committed, so the header always covers every registered stream.
    pub fn add_stream(&mut self, kind: StreamKind) -> (idx: usize)
        requires
            !old(self)@.header_written,
            old(self)@.streams.len() < usize::MAX,
        ensures
            idx == old(self)@.streams.len(),
            final(self)@ == (WriterModel { streams: old(self)@.streams.push(kind), ..old(self)@ }),
    {
        let idx = self.streams.len();
        self.streams.push(kind);
        idx
    }

    /// Commits the container header.  Callable once, and only after every
    /// track has been declared (no track can be added afterwards).
    pub fn write_header(&mut self)
        requires
            !old(self)@.header_written,
        ensures
            final(self)@ == (WriterModel { header_written: true, ..old(self)@ }),
    {
        self.header_written = true;
    }

    /// Appends one encoded packet for a declared track, strictly between
    /// header and trailer.
    pub fn write_packet(&mut self, packet: Packet)
        requires
            old(self)@.header_written,
            !old(self)@.trailer_written,
            packet.stream < old(self)@.streams.len(),
        ensures
            final(self)@ == (WriterModel { packets: old(self)@.packets.push(packet), ..old(self)@ }),
    {
        self.packets.push(packet);
    }

    /// Commits the container trailer, closing the file.  Callable once; no
    /// packet can be written afterwards.
    pub fn write_trailer(&mut self)
        requires
            old(self)@.header_written,
            !old(self)@.trailer_written,
        ensures
            final(self)@ == (WriterModel { trailer_written: true, ..old(self)@ }),
    {
        self.trailer_written = true;
    }

    /// The output path this writer was opened with.
    pub fn path(&self) -> (p: &Vec<u8>)
        ensures
            p@ == self@.path,
    {
        &self.path
    }

    /// The declared tracks.
    pub fn streams(&self) -> (s: &Vec<StreamKind>)
        ensures
            s@ == self@.streams,
    {
        &self.streams
    }

    /// Whether the header has been committed.
    pub fn header_written(&self) -> (b: bool)
        ensures
            b == self@.header_written,
    {
        self.header_written
    }

    /// The packet log committed so far, in commit order.
    pub fn packets(&self) -> (p: &Vec<Packet>)
        ensures
            p@ == self@.packets,
    {
        &self.packets
    }

    /// Whether the trailer has been committed.
    pub fn trailer_written(&self) -> (b: bool)
        ensures
            b == self@.trailer_written,
    {
        self.trailer_written
    }
}

} // verus!
