use zecho::tray::{decode_icon, icon_of_frame, menu_action, MenuAction};

fn encode(width: u32, height: u32, pixels: &[u8]) -> Vec<u8> {
    let mut data: Vec<u8> = Vec::new();
    let mut encoder = png::Encoder::new(&mut data, width, height);
    encoder.set_color(png::ColorType::Rgba);
    encoder.set_depth(png::BitDepth::Eight);
    let mut writer = encoder.write_header().unwrap();
    writer.write_image_data(pixels).unwrap();
    writer.finish().unwrap();
    data
}

#[test]
fn an_icon_is_decoded() {
    let pixels: Vec<u8> = (0..24).map(|i| i * 10).collect();
    let icon = decode_icon(&encode(3, 2, &pixels)).unwrap();
    assert_eq!(icon.width, 3);
    assert_eq!(icon.height, 2);
    assert_eq!(icon.pixels, pixels);
}

#[test]
fn what_is_no_image_is_refused() {
    assert_eq!(decode_icon(b"not a png at all").unwrap_err(), "Invalid PNG signature.");
    assert!(decode_icon(&[]).is_err());
}

#[test]
fn an_image_cut_short_is_refused() {
    let pixels: Vec<u8> = (0..=255).cycle().take(64 * 64 * 4).map(|i: i32| (i * 7 % 251) as u8).collect();
    let data = encode(64, 64, &pixels);
    assert!(decode_icon(&data).is_ok());
    assert!(decode_icon(&data[..data.len() / 2]).is_err());
}

#[test]
fn a_frame_is_cut_to_its_size() {
    let icon = icon_of_frame(vec![1, 2, 3, 4], 1, 2, 3);
    assert_eq!(icon.pixels, vec![1, 2, 3]);
    assert_eq!((icon.width, icon.height), (1, 2));
    assert_eq!(icon_of_frame(vec![1, 2], 1, 1, 2).pixels, vec![1, 2]);
    assert_eq!(icon_of_frame(vec![1, 2], 1, 1, 9).pixels, vec![1, 2]);
}

#[test]
fn menu_entries_do_what_they_say() {
    assert_eq!(menu_action("history", false), MenuAction::ShowHistory { reveal: true });
    assert_eq!(menu_action("history", true), MenuAction::ShowHistory { reveal: false });
    assert_eq!(menu_action("settings", true), MenuAction::ShowSettings);
    assert_eq!(menu_action("check_updates", false), MenuAction::ShowUpdates);
    assert_eq!(menu_action("quit", false), MenuAction::Quit);
    assert_eq!(menu_action("other", false), MenuAction::Ignore);
    assert_eq!(menu_action("", true), MenuAction::Ignore);
}
