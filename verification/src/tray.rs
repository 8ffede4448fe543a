//! The tray icon and its menu.

use vstd::prelude::*;

use crate::text::same_text;

verus! {

/// How many bytes the frames of a PNG image take when decoded, or why it cannot
/// be read.
pub uninterp spec fn png_frame_size(data: Seq<u8>) -> Result<usize, Seq<char>>;

/// The first frame of a PNG image, decoded into a buffer with the contents `buf`:
/// the contents after it, its width and height, and how many bytes it takes; or
/// why it cannot be decoded.
pub uninterp spec fn png_first_frame(data: Seq<u8>, buf: Seq<u8>) -> Result<
    (Seq<u8>, u32, u32, usize),
    Seq<char>,
>;

/// Calls `png::Decoder::read_info` on the image and `png::Reader::output_buffer_size`
/// on what it gives. The size, or the text of the error, depends on the image
/// alone.
#[verifier::external_body]
fn read_frame_size(data: &[u8]) -> (r: Result<usize, String>)
    ensures
        match (r, png_frame_size(data@)) {
            (Ok(size), Ok(known)) => size == known,
            (Err(message), Err(known)) => message@ == known,
            _ => false,
        },
{
    let decoder = png::Decoder::new(std::io::Cursor::new(data));
    let reader = decoder.read_info().map_err(|e| e.to_string())?;
    Ok(reader.output_buffer_size())
}

/// Calls `png::Reader::next_frame` on a reader of the image, and
/// `png::OutputInfo::buffer_size` on what it gives. What comes of it depends on the
/// image and on what the buffer holds. The buffer keeps its length, and a frame
/// that was decoded fits into it. Nothing is claimed of what the buffer holds
/// after an error.
#[verifier::external_body]
fn read_first_frame(data: &[u8], buf: &mut Vec<u8>) -> (r: Result<(u32, u32, usize), String>)
    ensures
        final(buf)@.len() == old(buf)@.len(),
        match (r, png_first_frame(data@, old(buf)@)) {
            (Ok(frame), Ok(known)) => {
                &&& final(buf)@ == known.0
                &&& frame.0 == known.1
                &&& frame.1 == known.2
                &&& frame.2 == known.3
                &&& frame.2 <= old(buf)@.len()
            },
            (Err(message), Err(known)) => message@ == known,
            _ => false,
        },
{
    let decoder = png::Decoder::new(std::io::Cursor::new(data));
    let mut reader = decoder.read_info().map_err(|e| e.to_string())?;
    let info = reader.next_frame(buf).map_err(|e| e.to_string())?;
    Ok((info.width, info.height, info.buffer_size()))
}

/// An icon, row by row.
#[derive(Debug)]
pub struct TrayIcon {
    pub pixels: Vec<u8>,
    pub width: u32,
    pub height: u32,
}

/// Makes an icon of a decoded frame that takes the first `size` bytes of a buffer.
pub fn icon_of_frame(buf: Vec<u8>, width: u32, height: u32, size: usize) -> (r: TrayIcon)
    ensures
        r.pixels@ == if size <= buf@.len() {
            buf@.take(size as int)
        } else {
            buf@
        },
        r.width == width,
        r.height == height,
{
    let mut pixels = buf;
    if size < pixels.len() {
        pixels.truncate(size);
    }
    assert(buf@.take(buf@.len() as int) == buf@);
    TrayIcon { pixels, width, height }
}

/// A buffer of `size` zeros.
pub open spec fn zeros(size: usize) -> Seq<u8> {
    Seq::new(size as nat, |i: int| 0u8)
}

/// Decodes the icon that is stored as a PNG image.
pub fn decode_icon(data: &[u8]) -> (r: Result<TrayIcon, String>)
    ensures
        match png_frame_size(data@) {
            Err(message) => r matches Err(m) && m@ == message,
            Ok(size) => match png_first_frame(data@, zeros(size)) {
                Err(message) => r matches Err(m) && m@ == message,
                Ok((bytes, width, height, used)) => r matches Ok(icon) && {
                    &&& icon.pixels@ == bytes.take(used as int)
                    &&& icon.pixels@.len() == used
                    &&& icon.width == width
                    &&& icon.height == height
                },
            },
        },
{
    let size = match read_frame_size(data) {
        Ok(size) => size,
        Err(message) => {
            return Err(message);
        },
    };
    let mut buf: Vec<u8> = vec![0u8; size];
    assert(buf@ == zeros(size));
    match read_first_frame(data, &mut buf) {
        Ok((width, height, used)) => Ok(icon_of_frame(buf, width, height, used)),
        Err(message) => Err(message),
    }
}

/// What an entry of the tray's menu does.
#[derive(Debug, Clone, Copy, PartialEq, Eq, Structural)]
pub enum MenuAction {
    /// Bring up the history window: place it and show it first if it is hidden.
    ShowHistory { reveal: bool },
    /// Show the settings window.
    ShowSettings,
    /// Show the update window and tell it that it was opened.
    ShowUpdates,
    /// Quit the application.
    Quit,
    /// Nothing.
    Ignore,
}

/// What the menu entry with the id `id` does, given whether the history window is
/// to be seen.
pub fn menu_action(id: &str, history_visible: bool) -> (r: MenuAction)
    ensures
        r == if id@ == "history"@ {
            MenuAction::ShowHistory { reveal: !history_visible }
        } else if id@ == "settings"@ {
            MenuAction::ShowSettings
        } else if id@ == "check_updates"@ {
            MenuAction::ShowUpdates
        } else if id@ == "quit"@ {
            MenuAction::Quit
        } else {
            MenuAction::Ignore
        },
{
    if same_text(id, "history") {
        MenuAction::ShowHistory { reveal: !history_visible }
    } else if same_text(id, "settings") {
        MenuAction::ShowSettings
    } else if same_text(id, "check_updates") {
        MenuAction::ShowUpdates
    } else if same_text(id, "quit") {
        MenuAction::Quit
    } else {
        MenuAction::Ignore
    }
}

/// The buffer that an icon is decoded into starts out with a zero for every byte of the
/// frame.
pub proof fn law_zeros(size: usize, i: int)
    requires
        0 <= i < size,
    ensures
        zeros(size).len() == size,
        zeros(size)[i] == 0,
{
}

/// Each entry of the menu does its own: the history is brought up, and revealed first
/// exactly if it is not to be seen; the settings and the updates are shown; the application
/// is quit; and an entry of any other name does nothing.
pub proof fn law_menu(id: &str, history_visible: bool, r: MenuAction)
    requires
        call_ensures(menu_action, (id, history_visible), r),
    ensures
        r is ShowHistory <==> id@ == "history"@,
        r matches MenuAction::ShowHistory { reveal } ==> (reveal <==> !history_visible),
        r is Quit ==> id@ == "quit"@,
        r is ShowSettings ==> id@ == "settings"@,
        r is ShowUpdates ==> id@ == "check_updates"@,
        r is Ignore ==> id@ != "history"@ && id@ != "settings"@ && id@ != "check_updates"@ && id@
            != "quit"@,
{
}

} // verus!
