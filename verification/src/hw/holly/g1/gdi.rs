//! The GD-ROM image format (.gdi): a list of tracks, each a file of raw
//! sectors starting at a given logical block address.
use vstd::prelude::*;

verus! {

/// The reader of .gdi files.
pub struct GdiParser;

/// A disc image: its tracks in order of their start addresses.
#[derive(Debug, Clone)]
pub struct GdiImage {
    pub tracks: Vec<Track>,
}

/// A track: where it starts, its kind, the size of its sectors and its
/// sector data.
#[derive(Debug, Clone)]
pub struct Track {
    pub offset: usize,
    pub is_audo_track: bool,
    pub control: usize,
    pub sector_size: usize,
    pub data: Vec<u8>,
    pub number: usize,
    pub adr: u8,
}

/// The area descriptor of a disc's session.
#[derive(Debug, Copy, Clone)]
pub struct AreaDescriptor {
    pub start_track: usize,
    pub end_track: usize,
    pub lead_in: usize,
    pub lead_out: usize,
}

/// The data bytes of the raw sector at `s` of a 2352-byte-sector track:
/// 2048 in mode 1, 2336 in mode 2 (the mode byte ends the 16-byte header).
pub open spec fn raw_payload_size(data: Seq<u8>, s: int) -> int {
    if data[s + 15] == 1 { 2048 } else { 2336 }
}

/// The smaller of two integers.
pub open spec fn min_int(a: int, b: int) -> int {
    if a < b { a } else { b }
}

/// The bytes that reading `count` sectors from byte `s` on copies into
/// `room` bytes of destination: for 2048-byte sectors the data itself; for
/// 2352-byte sectors the data after each header.
pub open spec fn gdi_copy(data: Seq<u8>, sector_size: int, s: int, count: nat, room: int) -> Seq<u8>
    decreases count,
{
    if count == 0 {
        seq![]
    } else if sector_size == 2048 {
        let chunk = min_int(2048, room);
        data.subrange(s, s + chunk) + gdi_copy(data, sector_size, s + chunk, (count - 1) as nat, room - chunk)
    } else {
        let chunk = min_int(raw_payload_size(data, s), room);
        data.subrange(s + 16, s + 16 + chunk) + gdi_copy(data, sector_size, s + 2352, (count - 1) as nat, room - chunk)
    }
}

/// Whether every read of that copy stays in the track data, and every raw
/// sector header gives mode 1 or 2.
pub open spec fn gdi_readable(data: Seq<u8>, sector_size: int, s: int, count: nat, room: int) -> bool
    decreases count,
{
    if count == 0 {
        true
    } else if sector_size == 2048 {
        let chunk = min_int(2048, room);
        0 <= s && s + chunk <= data.len() && gdi_readable(data, sector_size, s + chunk, (count - 1) as nat, room - chunk)
    } else {
        &&& 0 <= s && s + 16 <= data.len()
        &&& s + 2352 <= usize::MAX
        &&& data[s + 15] == 1 || data[s + 15] == 2
        &&& s + 16 + min_int(raw_payload_size(data, s), room) <= data.len()
        &&& gdi_readable(data, sector_size, s + 2352, (count - 1) as nat, room - min_int(raw_payload_size(data, s), room))
    }
}

proof fn lemma_gdi_copy_len(data: Seq<u8>, sector_size: int, s: int, count: nat, room: int)
    requires
        room >= 0,
        gdi_readable(data, sector_size, s, count, room),
    ensures
        gdi_copy(data, sector_size, s, count, room).len() <= room,
    decreases count,
{
    if count > 0 {
        if sector_size == 2048 {
            lemma_gdi_copy_len(data, sector_size, s + min_int(2048, room), (count - 1) as nat, room - min_int(2048, room));
        } else {
            let chunk = min_int(raw_payload_size(data, s), room);
            lemma_gdi_copy_len(data, sector_size, s + 2352, (count - 1) as nat, room - chunk);
        }
    }
}

/// The index of the track that holds logical block `lda`: the last one,
/// counting from `idx`, whose start address is not past it.
pub open spec fn track_index(tracks: Seq<Track>, lda: u32, idx: int) -> int
    decreases tracks.len() - idx,
{
    if 0 <= idx && idx + 1 < tracks.len() && tracks[idx + 1].offset <= lda {
        track_index(tracks, lda, idx + 1)
    } else {
        idx
    }
}

proof fn lemma_track_index_bounds(tracks: Seq<Track>, lda: u32, idx: int)
    requires
        0 <= idx < tracks.len(),
    ensures
        idx <= track_index(tracks, lda, idx) < tracks.len(),
    decreases tracks.len() - idx,
{
    if idx + 1 < tracks.len() && tracks[idx + 1].offset <= lda {
        lemma_track_index_bounds(tracks, lda, idx + 1);
    }
}

impl Track {
    /// The size of the header in front of a sector's data: 16 bytes for
    /// raw 2352-byte sectors, none otherwise.
    pub fn header_size(&self) -> (r: usize)
        ensures
            r == if self.sector_size == 2352 { 0x10usize } else { 0 },
    {
        if self.sector_size == 2352 { 0x10 } else { 0 }
    }

    /// Copies the data of `count` sectors from logical block `lba` on into
    /// `dest`, as far as it has room, and answers the bytes copied.
    pub fn load_sectors(&self, lba: u32, count: u32, dest: &mut [u8]) -> (r: u32)
        requires
            self.sector_size == 2048 || self.sector_size == 2352,
            self.offset <= lba,
            (lba - self.offset) * self.sector_size <= u32::MAX,
            gdi_readable(
                self.data@,
                self.sector_size as int,
                (lba - self.offset) * self.sector_size,
                count as nat,
                old(dest)@.len() as int,
            ),
            old(dest)@.len() <= u32::MAX,
        ensures
            ({
                let copied = gdi_copy(
                    self.data@,
                    self.sector_size as int,
                    (lba - self.offset) * self.sector_size,
                    count as nat,
                    old(dest)@.len() as int,
                );
                &&& r == copied.len()
                &&& final(dest)@ == copied + old(dest)@.skip(copied.len() as int)
            }),
    {
        let ghost s0: int = (lba - self.offset) * self.sector_size;
        let ghost d0 = dest@;
        let mut sector_start = ((lba - self.offset as u32) * self.sector_size as u32) as usize;
        let mut copied: usize = 0;
        let dlen = dest.len();
        let dsize = self.data.len();
        let hs = self.header_size();
        proof {
            lemma_gdi_copy_len(self.data@, self.sector_size as int, s0, count as nat, dlen as int);
        }
        let mut k: u32 = 0;
        while k < count
            invariant
                self.sector_size == 2048 || self.sector_size == 2352,
                hs == if self.sector_size == 2352 { 16usize } else { 0 },
                dlen == dest@.len() == d0.len(),
                dsize == self.data@.len(),
                k <= count,
                copied <= dlen,
                dlen <= u32::MAX,
                gdi_readable(self.data@, self.sector_size as int, sector_start as int, (count - k) as nat, (dlen - copied) as int),
                gdi_copy(self.data@, self.sector_size as int, s0, count as nat, dlen as int) == dest@.subrange(0, copied as int)
                    + gdi_copy(self.data@, self.sector_size as int, sector_start as int, (count - k) as nat, (dlen - copied) as int),
                dest@.skip(copied as int) == d0.skip(copied as int),
            decreases count - k,
        {
            let data_size: usize = if self.sector_size == 2048 {
                2048
            } else if self.data[sector_start + 15] == 1 {
                2048
            } else {
                2336
            };
            let room = dlen - copied;
            let chunk_size = if data_size < room { data_size } else { room };
            let src = sector_start + hs;
            proof {
                lemma_gdi_copy_len(self.data@, self.sector_size as int, sector_start as int, (count - k) as nat, (dlen - copied) as int);
            }
            let ghost before = dest@;
            let mut j: usize = 0;
            while j < chunk_size
                invariant
                    j <= chunk_size,
                    copied + chunk_size <= dlen,
                    src + chunk_size <= dsize,
                    dsize == self.data@.len(),
                    dlen == dest@.len(),
                    before.len() == dlen,
                    forall|i: int| 0 <= i < copied ==> dest@[i] == before[i],
                    forall|i: int| copied <= i < copied + j ==> dest@[i] == self.data@[src + i - copied],
                    forall|i: int| copied + j <= i < dlen ==> dest@[i] == before[i],
                decreases chunk_size - j,
            {
                let b = self.data[src + j];
                dest[copied + j] = b;
                j = j + 1;
            }
            proof {
                assert(dest@.subrange(0, copied as int) =~= before.subrange(0, copied as int));
                assert(dest@.subrange(copied as int, copied + chunk_size) =~= self.data@.subrange(src as int, src + chunk_size));
                assert(dest@.skip(copied + chunk_size) =~= before.skip(copied + chunk_size));
            }
            proof {
                assert(dest@.subrange(0, copied + chunk_size) =~= dest@.subrange(0, copied as int) + dest@.subrange(copied as int, copied + chunk_size));
                assert(before.skip(copied as int) == d0.skip(copied as int));
                assert forall|i: int| 0 <= i < d0.len() - (copied + chunk_size) implies #[trigger] before.skip(copied + chunk_size)[i] == d0.skip(copied + chunk_size)[i] by {
                    assert(before.skip(copied as int)[i + chunk_size] == d0.skip(copied as int)[i + chunk_size]);
                }
                assert(before.skip(copied + chunk_size) =~= d0.skip(copied + chunk_size));
            }
            copied += chunk_size;
            sector_start += if self.sector_size == 2048 { chunk_size } else { 2352 };
            k = k + 1;
        }
        proof {
            assert(gdi_copy(self.data@, self.sector_size as int, sector_start as int, 0, (dlen - copied) as int) =~= seq![]);
            assert(dest@ =~= dest@.subrange(0, copied as int) + dest@.skip(copied as int));
        }
        copied as u32
    }
}

impl GdiImage {
    /// The track that holds logical block `lda`: the last whose start is
    /// not past it (the first track if none starts that early).
    pub fn get_corresponding_track(&self, lda: u32) -> (r: &Track)
        requires
            self.tracks@.len() > 0,
        ensures
            *r == self.tracks@[track_index(self.tracks@, lda, 0)],
    {
        let mut idx: usize = 0;
        let n = self.tracks.len();
        while idx + 1 < n && self.tracks[idx + 1].offset <= lda as usize
            invariant
                n == self.tracks@.len(),
                idx < self.tracks@.len(),
                track_index(self.tracks@, lda, 0) == track_index(self.tracks@, lda, idx as int),
            decreases self.tracks@.len() - idx,
        {
            idx += 1;
        }
        &self.tracks[idx]
    }

    /// Copies `count` sectors from logical block `lba` on, from the track
    /// that holds it, into `dest`; answers the bytes copied.
    pub fn load_sectors(&self, lba: u32, count: u32, dest: &mut [u8]) -> (r: u32)
        requires
            self.tracks@.len() > 0,
            ({
                let t = self.tracks@[track_index(self.tracks@, lba, 0)];
                &&& t.sector_size == 2048 || t.sector_size == 2352
                &&& t.offset <= lba
                &&& (lba - t.offset) * t.sector_size <= u32::MAX
                &&& gdi_readable(t.data@, t.sector_size as int, (lba - t.offset) * t.sector_size, count as nat, old(dest)@.len() as int)
            }),
            old(dest)@.len() <= u32::MAX,
        ensures
            ({
                let t = self.tracks@[track_index(self.tracks@, lba, 0)];
                let copied = gdi_copy(t.data@, t.sector_size as int, (lba - t.offset) * t.sector_size, count as nat, old(dest)@.len() as int);
                &&& r == copied.len()
                &&& final(dest)@ == copied + old(dest)@.skip(copied.len() as int)
            }),
    {
        let track = self.get_corresponding_track(lba);
        track.load_sectors(lba, count, dest)
    }
}

/// A track line of a .gdi file: the track number, its first logical block,
/// its type (0 for audio, 4 for data), its sector size and the name of its
/// file; the last field, an offset, is read but not kept.
#[derive(Clone, Debug)]
pub struct GdiTrackLine {
    pub number: usize,
    pub lba: usize,
    pub track_type: usize,
    pub sector_size: usize,
    pub file_name: Vec<u8>,
}

/// The state of reading a .gdi text byte by byte: the lines read so far,
/// each a sequence of fields given by their byte ranges; the fields of the
/// current line; the start of the open field; and whether a field is open,
/// or a quoted one.
pub struct GdiLex {
    pub lines: Seq<Seq<(usize, usize)>>,
    pub fields: Seq<(usize, usize)>,
    pub start: usize,
    pub in_token: bool,
    pub quoted: bool,
}

/// The fields with the open one, ending at `i`, closed.
pub open spec fn closed_fields(st: GdiLex, i: usize) -> Seq<(usize, usize)> {
    if st.in_token { st.fields.push((st.start, i)) } else { st.fields }
}

/// Reading byte `b` at position `i`: spaces, tabs and carriage returns
/// separate fields; a line feed ends the line; a double quote opens a field
/// that runs to the next double quote, spaces included; any other byte
/// opens a field or continues the open one.
pub open spec fn gdi_lex_step(st: GdiLex, b: u8, i: usize) -> GdiLex {
    if st.quoted {
        if b == 0x22 {
            GdiLex { fields: st.fields.push((st.start, i)), quoted: false, in_token: false, ..st }
        } else {
            st
        }
    } else if b == 0x22 {
        GdiLex { fields: closed_fields(st, i), start: (i + 1) as usize, in_token: false, quoted: true, ..st }
    } else if b == 0x20 || b == 0x09 || b == 0x0d {
        GdiLex { fields: closed_fields(st, i), in_token: false, ..st }
    } else if b == 0x0a {
        GdiLex { lines: st.lines.push(closed_fields(st, i)), fields: Seq::empty(), in_token: false, ..st }
    } else if st.in_token {
        st
    } else {
        GdiLex { start: i, in_token: true, ..st }
    }
}

/// The state after the first `n` bytes of `text`.
pub open spec fn gdi_lex(text: Seq<u8>, n: nat) -> GdiLex
    decreases n,
{
    if n == 0 {
        GdiLex { lines: Seq::empty(), fields: Seq::empty(), start: 0, in_token: false, quoted: false }
    } else {
        gdi_lex_step(gdi_lex(text, (n - 1) as nat), text[n - 1], (n - 1) as usize)
    }
}

/// The lines of `text` as field ranges; the last line need not end with a
/// line feed.
pub open spec fn gdi_lines(text: Seq<u8>) -> Seq<Seq<(usize, usize)>> {
    let st = gdi_lex(text, text.len());
    st.lines.push(closed_fields(st, text.len() as usize))
}

/// The bytes of a field.
pub open spec fn field_bytes(text: Seq<u8>, f: (usize, usize)) -> Seq<u8> {
    text.subrange(f.0 as int, f.1 as int)
}

/// A decimal number: digits only, at least one.
pub open spec fn is_decimal(s: Seq<u8>) -> bool {
    s.len() > 0 && forall|i: int| 0 <= i < s.len() ==> 0x30 <= #[trigger] s[i] <= 0x39
}

/// The value of a run of decimal digits.
pub open spec fn decimal_value(s: Seq<u8>) -> nat
    decreases s.len(),
{
    if s.len() == 0 {
        0
    } else {
        decimal_value(s.drop_last()) * 10 + (s.last() - 0x30) as nat
    }
}

/// A field that is a decimal number that fits a `usize`.
pub open spec fn is_number(text: Seq<u8>, f: (usize, usize)) -> bool {
    is_decimal(field_bytes(text, f)) && decimal_value(field_bytes(text, f)) <= usize::MAX
}

/// A track line: six fields, all numbers but the fifth, the file name; the
/// start block leaves room for the lead-in of 150 blocks.
pub open spec fn is_track_line(text: Seq<u8>, l: Seq<(usize, usize)>) -> bool {
    &&& l.len() == 6
    &&& is_number(text, l[0]) && is_number(text, l[1]) && is_number(text, l[2]) && is_number(text, l[3])
    &&& is_number(text, l[5])
    &&& decimal_value(field_bytes(text, l[1])) + 150 <= usize::MAX
}

/// A track line as values.
pub struct GdiLineView {
    pub number: nat,
    pub lba: nat,
    pub track_type: nat,
    pub sector_size: nat,
    pub file_name: Seq<u8>,
}

/// The values of a track line.
pub open spec fn track_line_view(text: Seq<u8>, l: Seq<(usize, usize)>) -> GdiLineView {
    GdiLineView {
        number: decimal_value(field_bytes(text, l[0])),
        lba: decimal_value(field_bytes(text, l[1])),
        track_type: decimal_value(field_bytes(text, l[2])),
        sector_size: decimal_value(field_bytes(text, l[3])),
        file_name: field_bytes(text, l[4]),
    }
}

/// The track lines among `ls`, or `None` where a line is not one: empty
/// lines are skipped, the first other line is the number of tracks (a
/// single number, unless `header` says it was read), and each following
/// one is a track line.
pub open spec fn gdi_records(text: Seq<u8>, ls: Seq<Seq<(usize, usize)>>, header: bool) -> Option<Seq<GdiLineView>>
    decreases ls.len(),
{
    if ls.len() == 0 {
        if header { Some(Seq::empty()) } else { None }
    } else {
        let l = ls[0];
        let rest = gdi_records(text, ls.drop_first(), header || l.len() > 0);
        if l.len() == 0 {
            gdi_records(text, ls.drop_first(), header)
        } else if !header {
            if l.len() == 1 && is_number(text, l[0]) { rest } else { None }
        } else if is_track_line(text, l) {
            match rest {
                Some(r) => Some(seq![track_line_view(text, l)] + r),
                None => None,
            }
        } else {
            None
        }
    }
}

/// The track lines of a .gdi text, or `None` when it is not one: a quote
/// left open, no track count, or a line that is not a track line.
pub open spec fn gdi_parse(text: Seq<u8>) -> Option<Seq<GdiLineView>> {
    if gdi_lex(text, text.len()).quoted {
        None
    } else {
        gdi_records(text, gdi_lines(text), false)
    }
}

/// Every field range of `ls` lies within the first `n` bytes.
pub open spec fn ranges_ok(ls: Seq<Seq<(usize, usize)>>, n: nat) -> bool {
    forall|a: int, b: int| #![trigger ls[a][b]]
        0 <= a < ls.len() && 0 <= b < ls[a].len() ==> ls[a][b].0 <= ls[a][b].1 <= n
}

/// Every field range of `fs` lies within the first `n` bytes.
pub open spec fn fields_ok(fs: Seq<(usize, usize)>, n: nat) -> bool {
    forall|b: int| #![trigger fs[b]] 0 <= b < fs.len() ==> fs[b].0 <= fs[b].1 <= n
}

proof fn lemma_fields_ok_push(fs: Seq<(usize, usize)>, x: (usize, usize), n: nat, m: nat)
    requires
        fields_ok(fs, n),
        n <= m,
        x.0 <= x.1 <= m,
    ensures
        fields_ok(fs, m),
        fields_ok(fs.push(x), m),
{
    assert forall|b: int| #![trigger fs.push(x)[b]] 0 <= b < fs.push(x).len() implies fs.push(x)[b].0 <= fs.push(x)[b].1 <= m by {
        if b < fs.len() {
            assert(fs.push(x)[b] == fs[b]);
        }
    }
}

proof fn lemma_ranges_ok_push(ls: Seq<Seq<(usize, usize)>>, l: Seq<(usize, usize)>, n: nat, m: nat)
    requires
        ranges_ok(ls, n),
        fields_ok(l, m),
        n <= m,
    ensures
        ranges_ok(ls, m),
        ranges_ok(ls.push(l), m),
{
    assert forall|a: int, b: int| #![trigger ls.push(l)[a][b]]
        0 <= a < ls.push(l).len() && 0 <= b < ls.push(l)[a].len()
        implies ls.push(l)[a][b].0 <= ls.push(l)[a][b].1 <= m by {
        if a < ls.len() {
            assert(ls.push(l)[a] == ls[a]);
        } else {
            assert(ls.push(l)[a] == l);
        }
    }
}

/// The field ranges of each line held in vectors, as values.
pub open spec fn ranges_view(v: Seq<Vec<(usize, usize)>>) -> Seq<Seq<(usize, usize)>> {
    Seq::new(v.len(), |i: int| v[i]@)
}

/// The lines that `gdi_records` takes from `acc` and a rest.
pub open spec fn prepend(acc: Seq<GdiLineView>, r: Option<Seq<GdiLineView>>) -> Option<Seq<GdiLineView>> {
    match r {
        Some(x) => Some(acc + x),
        None => None,
    }
}

impl GdiTrackLine {
    /// The values the line holds.
    pub open spec fn line_view(&self) -> GdiLineView {
        GdiLineView {
            number: self.number as nat,
            lba: self.lba as nat,
            track_type: self.track_type as nat,
            sector_size: self.sector_size as nat,
            file_name: self.file_name@,
        }
    }
}

/// The values of a sequence of track lines.
pub open spec fn lines_view(v: Seq<GdiTrackLine>) -> Seq<GdiLineView> {
    Seq::new(v.len(), |i: int| v[i].line_view())
}

/// The track built from the `index`-th track line (counting from one) and
/// the contents of its file: the start address moves past the lead-in of
/// 150 blocks, type 0 is audio, type 4 gives control 4.
pub open spec fn track_of(index: nat, line: GdiLineView, data: Seq<u8>, t: Track) -> bool {
    &&& t.number == index
    &&& t.offset == line.lba + 150
    &&& t.is_audo_track == (line.track_type == 0)
    &&& t.control == (if line.track_type == 4 { 4int } else { 0 })
    &&& t.adr == 1
    &&& t.sector_size == line.sector_size
    &&& t.data@ == data
}

proof fn lemma_decimal_prefix(s: Seq<u8>, k: int)
    requires
        0 <= k <= s.len(),
        forall|i: int| 0 <= i < s.len() ==> 0x30 <= #[trigger] s[i] <= 0x39,
    ensures
        decimal_value(s.subrange(0, k)) <= decimal_value(s),
    decreases s.len(),
{
    if k < s.len() {
        let t = s.drop_last();
        assert(s.subrange(0, k) =~= t.subrange(0, k));
        lemma_decimal_prefix(t, k);
    } else {
        assert(s.subrange(0, k) =~= s);
    }
}

impl GdiParser {
    /// Splits a .gdi text into lines of field ranges, and says whether a
    /// quote was left open.
    fn lex(text: &[u8]) -> (r: (Vec<Vec<(usize, usize)>>, bool))
        ensures
            ranges_view(r.0@) == gdi_lines(text@),
            r.1 == gdi_lex(text@, text@.len()).quoted,
            ranges_ok(gdi_lines(text@), text@.len()),
    {
        let n = text.len();
        let mut lines: Vec<Vec<(usize, usize)>> = Vec::new();
        let mut fields: Vec<(usize, usize)> = Vec::new();
        let mut start: usize = 0;
        let mut in_token = false;
        let mut quoted = false;
        let mut i: usize = 0;
        while i < n
            invariant
                n == text@.len(),
                i <= n,
                ranges_view(lines@) == gdi_lex(text@, i as nat).lines,
                fields@ == gdi_lex(text@, i as nat).fields,
                start == gdi_lex(text@, i as nat).start,
                in_token == gdi_lex(text@, i as nat).in_token,
                quoted == gdi_lex(text@, i as nat).quoted,
                ranges_ok(gdi_lex(text@, i as nat).lines, i as nat),
                fields_ok(gdi_lex(text@, i as nat).fields, i as nat),
                (in_token || quoted) ==> start <= i,
            decreases n - i,
        {
            let ghost st0 = gdi_lex(text@, i as nat);
            let b = text[i];
            if quoted {
                if b == 0x22 {
                    fields.push((start, i));
                    quoted = false;
                    in_token = false;
                }
            } else if b == 0x22 {
                if in_token {
                    fields.push((start, i));
                }
                start = i + 1;
                in_token = false;
                quoted = true;
            } else if b == 0x20 || b == 0x09 || b == 0x0d {
                if in_token {
                    fields.push((start, i));
                }
                in_token = false;
            } else if b == 0x0a {
                if in_token {
                    fields.push((start, i));
                }
                let ghost before = lines@;
                let mut line = Vec::new();
                std::mem::swap(&mut line, &mut fields);
                lines.push(line);
                proof {
                    assert(ranges_view(lines@) =~= ranges_view(before).push(line@));
                }
                in_token = false;
            } else if !in_token {
                start = i;
                in_token = true;
            }
            proof {
                let st1 = gdi_lex(text@, (i + 1) as nat);
                assert(st1 == gdi_lex_step(st0, b, i));
                let n0: nat = i as nat;
                let n1: nat = (i + 1) as nat;
                let cf = closed_fields(st0, i);
                assert(fields_ok(st0.fields, n0));
                assert(ranges_ok(st0.lines, n0));
                lemma_fields_ok_push(st0.fields, (0, 0), n0, n1);
                if st0.in_token || st0.quoted {
                    lemma_fields_ok_push(st0.fields, (st0.start, i), n0, n1);
                }
                assert(fields_ok(cf, n1));
                lemma_ranges_ok_push(st0.lines, cf, n0, n1);
                assert(fields_ok(Seq::<(usize, usize)>::empty(), n1));
                assert(fields_ok(st1.fields, n1));
                assert(ranges_ok(st1.lines, n1));
            }
            i += 1;
        }
        if in_token {
            fields.push((start, n));
        }
        let ghost before = lines@;
        lines.push(fields);
        proof {
            let st = gdi_lex(text@, n as nat);
            assert forall|a: int, b: int| #![trigger gdi_lines(text@)[a][b]]
                0 <= a < gdi_lines(text@).len() && 0 <= b < gdi_lines(text@)[a].len()
                implies gdi_lines(text@)[a][b].0 <= gdi_lines(text@)[a][b].1 <= n by {
                if a < st.lines.len() {
                    assert(gdi_lines(text@)[a] == st.lines[a]);
                } else {
                    let cf = closed_fields(st, n);
                    assert(gdi_lines(text@)[a] == cf);
                    if st.in_token {
                        lemma_fields_ok_push(st.fields, (st.start, n), n as nat, n as nat);
                    }
                    assert(fields_ok(cf, n as nat));
                    assert(cf[b].0 <= cf[b].1 <= n);
                }
            }
        }
        proof {
            assert(ranges_view(lines@) =~= ranges_view(before).push(lines@.last()@));
        }
        (lines, quoted)
    }

    /// The value of the field `f` of `text`, if it is a decimal number that
    /// fits a `usize`.
    fn parse_number(text: &[u8], f: (usize, usize)) -> (r: Option<usize>)
        requires
            f.0 <= f.1 <= text@.len(),
        ensures
            r is Some <==> is_number(text@, f),
            r is Some ==> r->0 == decimal_value(field_bytes(text@, f)),
    {
        let ghost s = field_bytes(text@, f);
        if f.0 == f.1 {
            return None;
        }
        let mut acc: usize = 0;
        let mut i: usize = f.0;
        while i < f.1
            invariant
                f.0 <= i <= f.1 <= text@.len(),
                s == text@.subrange(f.0 as int, f.1 as int),
                forall|j: int| f.0 <= j < i ==> 0x30 <= #[trigger] text@[j] <= 0x39,
                acc == decimal_value(text@.subrange(f.0 as int, i as int)),
            decreases f.1 - i,
        {
            let b = text[i];
            if b < 0x30 || b > 0x39 {
                proof {
                    assert(s[i - f.0] == b);
                }
                return None;
            }
            let d = (b - 0x30) as usize;
            proof {
                let p = text@.subrange(f.0 as int, i + 1);
                assert(p.drop_last() =~= text@.subrange(f.0 as int, i as int));
                assert(decimal_value(p) == acc * 10 + d);
            }
            if acc > (usize::MAX - d) / 10 {
                proof {
                    assert(acc * 10 + d > usize::MAX) by (nonlinear_arith)
                        requires acc > (usize::MAX - d) / 10, d <= 9;
                    if is_decimal(s) {
                        lemma_decimal_prefix(s, i + 1 - f.0);
                        assert(s.subrange(0, i + 1 - f.0) =~= text@.subrange(f.0 as int, i + 1));
                    }
                }
                return None;
            }
            proof {
                assert(acc * 10 + d <= usize::MAX) by (nonlinear_arith)
                    requires acc <= (usize::MAX - d) / 10, d <= 9;
            }
            acc = acc * 10 + d;
            i += 1;
        }
        proof {
            assert(text@.subrange(f.0 as int, i as int) =~= s);
            assert forall|j: int| 0 <= j < s.len() implies 0x30 <= #[trigger] s[j] <= 0x39 by {
                assert(s[j] == text@[f.0 + j]);
            }
        }
        Some(acc)
    }

    /// The bytes of the field `f` of `text`.
    fn field_vec(text: &[u8], f: (usize, usize)) -> (r: Vec<u8>)
        requires
            f.0 <= f.1 <= text@.len(),
        ensures
            r@ == field_bytes(text@, f),
    {
        let mut v: Vec<u8> = Vec::new();
        let mut i: usize = f.0;
        while i < f.1
            invariant
                f.0 <= i <= f.1 <= text@.len(),
                v@ == text@.subrange(f.0 as int, i as int),
            decreases f.1 - i,
        {
            v.push(text[i]);
            i += 1;
            proof {
                assert(v@ =~= text@.subrange(f.0 as int, i as int));
            }
        }
        v
    }

    /// The track line held in the fields `l` of `text`, if it is one.
    fn parse_track_line(text: &[u8], l: &Vec<(usize, usize)>) -> (r: Option<GdiTrackLine>)
        requires
            fields_ok(l@, text@.len()),
        ensures
            r is Some <==> is_track_line(text@, l@),
            r is Some ==> r->0.line_view() == track_line_view(text@, l@),
    {
        if l.len() != 6 {
            return None;
        }
        let f0 = l[0];
        let f1 = l[1];
        let f2 = l[2];
        let f3 = l[3];
        let f4 = l[4];
        let f5 = l[5];
        proof {
            assert(l@[0] == f0 && l@[1] == f1 && l@[2] == f2);
            assert(l@[3] == f3 && l@[4] == f4 && l@[5] == f5);
        }
        let number = match Self::parse_number(text, f0) { Some(x) => x, None => { return None; } };
        let lba = match Self::parse_number(text, f1) { Some(x) => x, None => { return None; } };
        let track_type = match Self::parse_number(text, f2) { Some(x) => x, None => { return None; } };
        let sector_size = match Self::parse_number(text, f3) { Some(x) => x, None => { return None; } };
        match Self::parse_number(text, f5) { Some(_) => {}, None => { return None; } }
        if lba > usize::MAX - 150 {
            return None;
        }
        let file_name = Self::field_vec(text, f4);
        Some(GdiTrackLine { number, lba, track_type, sector_size, file_name })
    }

    /// Reads the track lines of a .gdi text: the number of tracks on the
    /// first line that is not empty, then one track line per line, each of
    /// six fields (number, first block, type, sector size, file name,
    /// offset); empty lines are skipped and a file name may be quoted.
    /// Answers `None` for any other text.
    pub fn parse_text(text: &[u8]) -> (r: Option<Vec<GdiTrackLine>>)
        ensures
            r is Some <==> gdi_parse(text@) is Some,
            r is Some ==> lines_view(r->0@) == gdi_parse(text@)->0,
    {
        let (lines, quoted) = Self::lex(text);
        if quoted {
            return None;
        }
        let ghost ls = gdi_lines(text@);
        let mut out: Vec<GdiTrackLine> = Vec::new();
        let mut header = false;
        let mut i: usize = 0;
        let n = lines.len();
        proof {
            assert(ls.skip(0) =~= ls);
            assert(lines_view(out@) =~= Seq::<GdiLineView>::empty());
            assert(prepend(Seq::empty(), gdi_records(text@, ls, false)) =~= gdi_records(text@, ls, false)) by {
                match gdi_records(text@, ls, false) {
                    Some(x) => { assert(Seq::<GdiLineView>::empty() + x =~= x); }
                    None => {}
                }
            }
        }
        while i < n
            invariant
                n == lines@.len() == ls.len(),
                i <= n,
                ranges_view(lines@) == ls,
                ranges_ok(ls, text@.len()),
                gdi_parse(text@) == gdi_records(text@, ls, false),
                gdi_records(text@, ls, false) == prepend(lines_view(out@), gdi_records(text@, ls.skip(i as int), header)),
            decreases n - i,
        {
            let l = &lines[i];
            let ghost rest = ls.skip(i + 1);
            proof {
                assert(ls.skip(i as int).drop_first() =~= rest);
                assert(ls.skip(i as int)[0] == ls[i as int]);
                assert(l@ == ls[i as int]);
                assert forall|b: int| #![trigger l@[b]] 0 <= b < l@.len() implies l@[b].0 <= l@[b].1 <= text@.len() by {
                    assert(ls[i as int][b] == l@[b]);
                }
            }
            if l.len() == 0 {
            } else if !header {
                if l.len() == 1 {
                    let f = l[0];
                    match Self::parse_number(text, f) {
                        Some(_) => {}
                        None => { return None; }
                    }
                    header = true;
                } else {
                    return None;
                }
            } else {
                match Self::parse_track_line(text, l) {
                    Some(t) => {
                        let ghost acc = lines_view(out@);
                        out.push(t);
                        proof {
                            assert(lines_view(out@) =~= acc.push(track_line_view(text@, ls[i as int])));
                            match gdi_records(text@, rest, true) {
                                Some(x) => {
                                    assert(acc + (seq![track_line_view(text@, ls[i as int])] + x)
                                        =~= acc.push(track_line_view(text@, ls[i as int])) + x);
                                }
                                None => {}
                            }
                        }
                    }
                    None => { return None; }
                }
            }
            i += 1;
        }
        proof {
            assert(ls.skip(n as int) =~= Seq::<Seq<(usize, usize)>>::empty());
        }
        if !header {
            return None;
        }
        proof {
            assert(lines_view(out@) + Seq::<GdiLineView>::empty() =~= lines_view(out@));
        }
        Some(out)
    }

    /// The disc image made of the track lines `lines` and the contents of
    /// their files, in the same order; tracks are numbered from one.
    pub fn image_from_lines(lines: &Vec<GdiTrackLine>, files: Vec<Vec<u8>>) -> (r: GdiImage)
        requires
            lines@.len() == files@.len(),
            forall|i: int| 0 <= i < lines@.len() ==> #[trigger] lines@[i].lba + 150 <= usize::MAX,
            lines@.len() < usize::MAX,
        ensures
            r.tracks@.len() == lines@.len(),
            forall|i: int| 0 <= i < lines@.len() ==>
                track_of((i + 1) as nat, #[trigger] lines@[i].line_view(), files@[i]@, r.tracks@[i]),
    {
        let mut files = files;
        let ghost all = files@;
        let mut tracks: Vec<Track> = Vec::new();
        let n = lines.len();
        let mut i: usize = 0;
        while i < n
            invariant
                n == lines@.len() == all.len(),
                i <= n,
                n < usize::MAX,
                files@ == all.skip(i as int),
                tracks@.len() == i,
                forall|k: int| 0 <= k < lines@.len() ==> #[trigger] lines@[k].lba + 150 <= usize::MAX,
                forall|k: int| 0 <= k < i ==>
                    track_of((k + 1) as nat, #[trigger] lines@[k].line_view(), all[k]@, tracks@[k]),
            decreases n - i,
        {
            let line = &lines[i];
            proof {
                assert(files@[0] == all[i as int]);
            }
            let data = files.remove(0);
            proof {
                assert(files@ =~= all.skip(i + 1));
            }
            let t = Track {
                number: i + 1,
                offset: line.lba + 150,
                is_audo_track: line.track_type == 0,
                control: if line.track_type == 4 { 4 } else { 0 },
                adr: 1,
                sector_size: line.sector_size,
                data,
            };
            tracks.push(t);
            i += 1;
        }
        GdiImage { tracks }
    }
}

/// Tracks listed in order of their start addresses.
pub open spec fn tracks_in_order(tracks: Seq<Track>) -> bool {
    forall|i: int, j: int| 0 <= i < j < tracks.len() ==> tracks[i].offset <= tracks[j].offset
}

proof fn lemma_track_index_from(tracks: Seq<Track>, lda: u32, idx: int)
    requires
        0 <= idx < tracks.len(),
        tracks_in_order(tracks),
    ensures
        idx <= track_index(tracks, lda, idx) < tracks.len(),
        tracks[idx].offset <= lda ==> tracks[track_index(tracks, lda, idx)].offset <= lda,
        forall|j: int| track_index(tracks, lda, idx) < j < tracks.len() ==> tracks[j].offset > lda,
    decreases tracks.len() - idx,
{
    if idx + 1 < tracks.len() && tracks[idx + 1].offset <= lda {
        lemma_track_index_from(tracks, lda, idx + 1);
    } else if idx + 1 < tracks.len() {
        assert forall|j: int| idx < j < tracks.len() implies tracks[j].offset > lda by {
            if j > idx + 1 {
                assert(tracks[idx + 1].offset <= tracks[j].offset);
            }
        }
    }
}

/// The track found for a block holds it: with the tracks in order of start
/// address, the track chosen starts at or before the block (when any track
/// does), and every later track starts after it.
pub proof fn law_track_holds_block(tracks: Seq<Track>, lda: u32)
    requires
        tracks.len() > 0,
        tracks_in_order(tracks),
    ensures
        0 <= track_index(tracks, lda, 0) < tracks.len(),
        tracks[0].offset <= lda ==> tracks[track_index(tracks, lda, 0)].offset <= lda,
        forall|j: int| track_index(tracks, lda, 0) < j < tracks.len() ==> tracks[j].offset > lda,
{
    lemma_track_index_from(tracks, lda, 0);
}

} // verus!
