//! The SSD1306 OLED: which bytes go on the bus, in which order, and how a frame is split into
//! transactions.

use vstd::prelude::*;

verus! {

/// Width of the panel, in pixels.
pub const WIDTH: usize = 128;

/// Height of the panel, in pixels.
pub const HEIGHT: usize = 64;

/// Bytes of pixel data per I2C transaction: one page per write. In horizontal addressing mode the
/// panel's pointer simply carries on where the previous write stopped.
pub const DATA_CHUNK: usize = 128;

/// A transaction: the control byte, and then the bytes.
pub open spec fn framed(control: u8, bytes: Seq<u8>) -> Seq<u8> {
    seq![control] + bytes
}

/// The transactions of a run of data: each a control byte and up to `DATA_CHUNK` bytes.
pub open spec fn data_frames(control: u8, data: Seq<u8>) -> Seq<Seq<u8>>
    decreases data.len(),
{
    if data.len() == 0 {
        Seq::empty()
    } else if data.len() <= DATA_CHUNK {
        seq![framed(control, data)]
    } else {
        seq![framed(control, data.take(DATA_CHUNK as int))] + data_frames(
            control,
            data.skip(DATA_CHUNK as int),
        )
    }
}

/// The bytes of each of a list of transactions.
pub open spec fn contents(v: Seq<Vec<u8>>) -> Seq<Seq<u8>> {
    v.map_values(|t: Vec<u8>| t@)
}

fn frame(control: u8, bytes: &[u8]) -> (v: Vec<u8>)
    ensures
        v@ == framed(control, bytes@),
{
    let mut v: Vec<u8> = vec![control];
    let mut i: usize = 0;
    while i < bytes.len()
        invariant
            i <= bytes.len(),
            v@ == framed(control, bytes@.take(i as int)),
        decreases bytes.len() - i,
    {
        v.push(bytes[i]);
        i = i + 1;
        assert(v@ =~= framed(control, bytes@.take(i as int)));
    }
    assert(bytes@.take(i as int) =~= bytes@);
    v
}

/// The transactions of the power-on initialisation: the datasheet sequence, and then the
/// orientation -- last, for the segment re-map only affects data written after it.
pub fn init_writes(command: u8, init: &[u8], orientation: &[u8]) -> (v: Vec<Vec<u8>>)
    ensures
        contents(v@) == seq![framed(command, init@), framed(command, orientation@)],
{
    let v: Vec<Vec<u8>> = vec![frame(command, init), frame(command, orientation)];
    assert(contents(v@) =~= seq![framed(command, init@), framed(command, orientation@)]);
    v
}

/// The transactions of one command.
pub fn command_write(command: u8, bytes: &[u8]) -> (v: Vec<u8>)
    ensures
        v@ == framed(command, bytes@),
{
    frame(command, bytes)
}

/// The transactions that send a whole frame: the address window, and then the pixels.
///
/// The panel's pointers advance as data arrives, so a flush that trusted them to still be at the
/// origin would tear the image the second time it ran.
pub fn flush_writes(command: u8, data: u8, window: &[u8], pixels: &[u8]) -> (v: Vec<Vec<u8>>)
    ensures
        contents(v@) == seq![framed(command, window@)] + data_frames(data, pixels@),
{
    let mut v: Vec<Vec<u8>> = vec![frame(command, window)];
    let mut from: usize = 0;
    let ghost all = seq![framed(command, window@)] + data_frames(data, pixels@);
    assert(pixels@.skip(0) =~= pixels@);
    assert(contents(v@) + data_frames(data, pixels@) =~= all);
    while from < pixels.len()
        invariant
            from <= pixels.len(),
            all == seq![framed(command, window@)] + data_frames(data, pixels@),
            contents(v@) + data_frames(data, pixels@.skip(from as int)) == all,
        decreases pixels.len() - from,
    {
        let ghost before = v@;
        let ghost rest = pixels@.skip(from as int);
        let end: usize = if pixels.len() - from <= DATA_CHUNK {
            pixels.len()
        } else {
            from + DATA_CHUNK
        };
        let mut chunk: Vec<u8> = Vec::new();
        let mut i: usize = from;
        while i < end
            invariant
                from <= i <= end <= pixels.len(),
                chunk@ == pixels@.subrange(from as int, i as int),
            decreases end - i,
        {
            chunk.push(pixels[i]);
            i = i + 1;
            assert(chunk@ =~= pixels@.subrange(from as int, i as int));
        }
        let t: Vec<u8> = frame(data, chunk.as_slice());
        v.push(t);
        proof {
            assert(contents(v@) =~= contents(before).push(t@));
            if pixels@.len() - from <= DATA_CHUNK {
                assert(chunk@ =~= rest);
                assert(pixels@.skip(end as int) =~= Seq::<u8>::empty());
            } else {
                assert(chunk@ =~= rest.take(DATA_CHUNK as int));
                assert(pixels@.skip(end as int) =~= rest.skip(DATA_CHUNK as int));
            }
            assert(contents(v@) + data_frames(data, pixels@.skip(end as int)) =~= contents(before)
                + data_frames(data, rest));
        }
        from = end;
    }
    proof {
        assert(pixels@.skip(from as int) =~= Seq::<u8>::empty());
        assert(contents(v@) =~= all);
    }
    v
}

/// The transactions that blank the panel and switch it off. The memory is cleared as well: a static
/// image left on an OLED burns in, and switching the display on again later should not bring back
/// whatever was there.
pub fn off_writes(
    command: u8,
    data: u8,
    window: &[u8],
    blank: &[u8],
    power_off: u8,
) -> (v: Vec<Vec<u8>>)
    ensures
        contents(v@) == (seq![framed(command, window@)] + data_frames(data, blank@)).push(
            seq![command, power_off],
        ),
{
    let mut v: Vec<Vec<u8>> = flush_writes(command, data, window, blank);
    let ghost before = v@;
    let t: Vec<u8> = vec![command, power_off];
    assert(t@ =~= seq![command, power_off]);
    v.push(t);
    assert(contents(v@) =~= contents(before).push(seq![command, power_off]));
    v
}

/// The data of a list of transactions: all but their control bytes.
pub open spec fn payload(frames: Seq<Seq<u8>>) -> Seq<u8>
    decreases frames.len(),
{
    if frames.len() == 0 {
        Seq::empty()
    } else {
        frames[0].skip(1) + payload(frames.skip(1))
    }
}

/// What reaches the panel is the frame, byte for byte, whatever its length: the transactions hold
/// it in order, none is longer than `DATA_CHUNK` bytes and its control byte, and none is empty.
pub proof fn law_the_panel_gets_the_whole_frame(control: u8, data: Seq<u8>)
    ensures
        payload(data_frames(control, data)) == data,
        forall|i: int|
            0 <= i < data_frames(control, data).len() ==> 2 <= (#[trigger] data_frames(
                control,
                data,
            )[i]).len() <= DATA_CHUNK + 1 && data_frames(control, data)[i][0] == control,
    decreases data.len(),
{
    let fs = data_frames(control, data);
    if data.len() == 0 {
        assert(payload(fs) =~= data);
    } else if data.len() <= DATA_CHUNK {
        assert(fs[0].skip(1) =~= data);
        assert(fs.skip(1) =~= Seq::<Seq<u8>>::empty());
        assert(payload(fs.skip(1)) =~= Seq::<u8>::empty());
        assert(payload(fs) =~= data);
    } else {
        let head = data.take(DATA_CHUNK as int);
        let tail = data.skip(DATA_CHUNK as int);
        law_the_panel_gets_the_whole_frame(control, tail);
        assert(fs[0].skip(1) =~= head);
        assert(fs.skip(1) =~= data_frames(control, tail));
        assert(payload(fs) =~= head + tail);
        assert(head + tail =~= data);
        assert forall|i: int| 0 <= i < fs.len() implies 2 <= (#[trigger] fs[i]).len() <= DATA_CHUNK
            + 1 && fs[i][0] == control by {
            if i > 0 {
                assert(fs[i] == data_frames(control, tail)[i - 1]);
            }
        }
    }
}

/// Something to draw.
#[derive(Clone, Debug, PartialEq, Eq)]
pub enum Mark {
    /// A filled rectangle.
    Rect {
        /// Left edge.
        x: usize,
        /// Top edge.
        y: usize,
        /// Width.
        width: usize,
        /// Height.
        height: usize,
    },
    /// A line of text.
    Text {
        /// Left edge.
        x: usize,
        /// Top edge.
        y: usize,
        /// What it says.
        text: String,
    },
    /// A bar, filled to a percentage.
    Bar {
        /// Left edge.
        x: usize,
        /// Top edge.
        y: usize,
        /// Width.
        width: usize,
        /// Height.
        height: usize,
        /// How far it is filled.
        percent: u8,
    },
}

/// What a `Mark` says.
pub enum MarkView {
    /// A filled rectangle: left, top, width, height.
    Rect(int, int, int, int),
    /// A line of text: left, top, what it says.
    Text(int, int, Seq<char>),
    /// A bar: left, top, width, height, percentage.
    Bar(int, int, int, int, int),
}

impl View for Mark {
    type V = MarkView;

    open spec fn view(&self) -> MarkView {
        match self {
            Mark::Rect { x, y, width, height } => MarkView::Rect(
                *x as int,
                *y as int,
                *width as int,
                *height as int,
            ),
            Mark::Text { x, y, text } => MarkView::Text(*x as int, *y as int, text@),
            Mark::Bar { x, y, width, height, percent } => MarkView::Bar(
                *x as int,
                *y as int,
                *width as int,
                *height as int,
                *percent as int,
            ),
        }
    }
}

/// What a list of marks says.
pub open spec fn drawn(v: Seq<Mark>) -> Seq<MarkView> {
    v.map_values(|m: Mark| m@)
}

/// The bring-up screen: a one-pixel border round the whole edge, a solid box in the top left
/// corner, text, and a bar at 60%, so that a single photograph shows whether the orientation is
/// right, whether every pixel is addressable, and whether it is an SSD1306 at all.
pub fn test_pattern() -> (v: Vec<Mark>)
    ensures
        drawn(v@) == seq![
            MarkView::Rect(0, 0, 128, 1),
            MarkView::Rect(0, 63, 128, 1),
            MarkView::Rect(0, 0, 1, 64),
            MarkView::Rect(127, 0, 1, 64),
            MarkView::Rect(3, 3, 7, 7),
            MarkView::Text(14, 4, "argon-utils T7"@),
            MarkView::Text(4, 16, "SSD1306 @ 0x3c"@),
            MarkView::Text(4, 26, "box = top left"@),
            MarkView::Text(4, 36, "bar = 60%"@),
            MarkView::Bar(4, 48, 120, 11, 60),
        ],
{
    let v: Vec<Mark> = vec![
        Mark::Rect { x: 0, y: 0, width: WIDTH, height: 1 },
        Mark::Rect { x: 0, y: HEIGHT - 1, width: WIDTH, height: 1 },
        Mark::Rect { x: 0, y: 0, width: 1, height: HEIGHT },
        Mark::Rect { x: WIDTH - 1, y: 0, width: 1, height: HEIGHT },
        Mark::Rect { x: 3, y: 3, width: 7, height: 7 },
        Mark::Text { x: 14, y: 4, text: "argon-utils T7".to_owned() },
        Mark::Text { x: 4, y: 16, text: "SSD1306 @ 0x3c".to_owned() },
        Mark::Text { x: 4, y: 26, text: "box = top left".to_owned() },
        Mark::Text { x: 4, y: 36, text: "bar = 60%".to_owned() },
        Mark::Bar { x: 4, y: 48, width: 120, height: 11, percent: 60 },
    ];
    assert(drawn(v@) =~= seq![
        MarkView::Rect(0, 0, 128, 1),
        MarkView::Rect(0, 63, 128, 1),
        MarkView::Rect(0, 0, 1, 64),
        MarkView::Rect(127, 0, 1, 64),
        MarkView::Rect(3, 3, 7, 7),
        MarkView::Text(14, 4, "argon-utils T7"@),
        MarkView::Text(4, 16, "SSD1306 @ 0x3c"@),
        MarkView::Text(4, 26, "box = top left"@),
        MarkView::Text(4, 36, "bar = 60%"@),
        MarkView::Bar(4, 48, 120, 11, 60),
    ]);
    v
}

/// Switching the panel off first blanks it, with the same transactions as drawing a frame of those
/// bytes, and sends the switch last.
pub proof fn law_the_panel_is_blanked_before_it_goes_off(
    command: u8,
    data: u8,
    window: &[u8],
    blank: &[u8],
    power_off: u8,
    flushed: Vec<Vec<u8>>,
    off: Vec<Vec<u8>>,
)
    requires
        call_ensures(flush_writes, (command, data, window, blank), flushed),
        call_ensures(off_writes, (command, data, window, blank, power_off), off),
    ensures
        off@.len() == flushed@.len() + 1,
        forall|i: int| 0 <= i < flushed@.len() ==> (#[trigger] off@[i])@ == flushed@[i]@,
        off@.last()@ == seq![command, power_off],
{
    assert(contents(off@).len() == off@.len());
    assert(contents(flushed@).len() == flushed@.len());
    assert forall|i: int| 0 <= i < flushed@.len() implies (#[trigger] off@[i])@
        == flushed@[i]@ by {
        assert(contents(off@)[i] == off@[i]@);
        assert(contents(flushed@)[i] == flushed@[i]@);
    }
    assert(contents(off@).last() == off@.last()@);
}

/// A frame is sent as the address window, as a command, and then the pixels, as data, in order and
/// none left out.
pub proof fn law_a_frame_is_the_window_and_the_pixels(
    command: u8,
    data: u8,
    window: &[u8],
    pixels: &[u8],
    v: Vec<Vec<u8>>,
)
    requires
        call_ensures(flush_writes, (command, data, window, pixels), v),
    ensures
        v@.len() >= 1,
        v@[0]@ == seq![command] + window@,
        payload(contents(v@).skip(1)) == pixels@,
        forall|i: int| 1 <= i < v@.len() ==> (#[trigger] v@[i])@.len() >= 2 && v@[i]@[0] == data,
{
    let fs = data_frames(data, pixels@);
    law_the_panel_gets_the_whole_frame(data, pixels@);
    assert(contents(v@).len() == v@.len());
    assert(contents(v@)[0] == v@[0]@);
    assert(contents(v@).skip(1) =~= fs);
    assert forall|i: int| 1 <= i < v@.len() implies (#[trigger] v@[i])@.len() >= 2 && v@[i]@[0]
        == data by {
        assert(contents(v@)[i] == v@[i]@);
        assert(contents(v@)[i] == fs[i - 1]);
    }
}

/// The panel is brought up with the sequence as it is given, and then the orientation, both as
/// commands.
pub proof fn law_the_orientation_is_sent_last(
    command: u8,
    init: &[u8],
    orientation: &[u8],
    v: Vec<Vec<u8>>,
)
    requires
        call_ensures(init_writes, (command, init, orientation), v),
    ensures
        v@.len() == 2,
        v@[0]@ == seq![command] + init@,
        v@[1]@ == seq![command] + orientation@,
{
    assert(contents(v@).len() == v@.len());
    assert(contents(v@)[0] == v@[0]@);
    assert(contents(v@)[1] == v@[1]@);
}

/// The bring-up screen has a border of one pixel along all four edges, and its bar says sixty.
pub proof fn law_the_pattern_reaches_every_edge(v: Vec<Mark>)
    requires
        call_ensures(test_pattern, (), v),
    ensures
        drawn(v@).contains(MarkView::Rect(0, 0, 128, 1)),
        drawn(v@).contains(MarkView::Rect(0, 63, 128, 1)),
        drawn(v@).contains(MarkView::Rect(0, 0, 1, 64)),
        drawn(v@).contains(MarkView::Rect(127, 0, 1, 64)),
        drawn(v@).contains(MarkView::Rect(3, 3, 7, 7)),
        drawn(v@).last() == MarkView::Bar(4, 48, 120, 11, 60),
        drawn(v@).len() == 10,
{
    let d = drawn(v@);
    assert(d[0] == MarkView::Rect(0, 0, 128, 1) && d[1] == MarkView::Rect(0, 63, 128, 1));
    assert(d[2] == MarkView::Rect(0, 0, 1, 64) && d[3] == MarkView::Rect(127, 0, 1, 64));
    assert(d[4] == MarkView::Rect(3, 3, 7, 7));
}

/// Every transaction but the last holds 128 bytes, and what fits in one is one.
pub proof fn law_a_transaction_is_filled_before_the_next(control: u8, data: Seq<u8>)
    ensures
        0 < data.len() <= 128 ==> data_frames(control, data) == seq![seq![control] + data],
        data.len() > 128 ==> data_frames(control, data).len() > 0 && data_frames(control, data)[0]
            == seq![control] + data.take(128),
{
    if data.len() > 0 {
        assert(data_frames(control, data).len() > 0);
    }
}

} // verus!
