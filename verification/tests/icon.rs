use openlogi::icon::{generate_macos_icns, icon_slot, write_icns, SLOTS};

#[test]
fn one_drawing_fills_every_place() {
    let mut drawing = image::RgbaImage::new(20, 20);
    for p in drawing.pixels_mut() {
        *p = image::Rgba([200, 100, 50, 255]);
    }
    let mut png = std::io::Cursor::new(Vec::new());
    drawing
        .write_to(&mut png, image::ImageFormat::Png)
        .expect("png");
    let file = generate_macos_icns(png.get_ref()).expect("icons");
    assert_eq!(&file[..4], b"icns");
    let family = icns::IconFamily::read(std::io::Cursor::new(&file)).expect("family");
    assert_eq!(family.elements.len(), SLOTS);
    for i in 0..SLOTS {
        let slot = icon_slot(i);
        assert_eq!(family.elements[i].ostype.0, slot.code);
        let kind = icns::IconType::from_ostype(icns::OSType(slot.code)).expect("kind");
        let icon = family.get_icon_with_type(kind).expect("icon");
        assert_eq!(icon.width(), slot.side);
        assert_eq!(icon.height(), slot.side);
        // A drawing of one colour keeps its colour in every size.
        assert_eq!(&icon.data()[..4], [200, 100, 50, 255]);
    }
}

#[test]
fn what_is_no_drawing_gives_no_icon() {
    assert!(generate_macos_icns(b"not a drawing").is_none());
}

#[test]
fn icons_of_the_wrong_size_are_refused() {
    let pixels = |i: usize| vec![7u8; (4 * icon_slot(i).side * icon_slot(i).side) as usize];
    let good: Vec<Vec<u8>> = (0..SLOTS).map(pixels).collect();
    let mut short = good.clone();
    short[3].pop();
    assert!(write_icns(short).is_none());
    assert!(write_icns(good[..9].to_vec()).is_none());
    let file = write_icns(good).expect("icons");
    let family = icns::IconFamily::read(std::io::Cursor::new(&file)).expect("family");
    let icon = family
        .get_icon_with_type(icns::IconType::RGBA32_16x16)
        .expect("icon");
    assert!(icon.data().iter().all(|b| *b == 7));
}
