use r_tvui::models::previewer::{image_preview_summary, is_image_path, jpeg_dimensions, probe_image_dimensions, ImageProbe};

#[test]
fn image_paths_by_extension() {
    for p in ["a.png", "b.JPG", "c.jpeg", "d.Gif", "e.webp", "f.bmp", "g.tif", "h.TIFF", "i.ico"] {
        assert!(is_image_path(p), "{p}");
    }
    for p in ["a.txt", "png", ".png", "a.png.txt", "dir/a"] {
        assert!(!is_image_path(p), "{p}");
    }
}

#[test]
fn png_and_gif_headers_give_dimensions() {
    let mut png = vec![0x89, b'P', b'N', b'G', b'\r', b'\n', 0x1a, b'\n', 0, 0, 0, 13, b'I', b'H', b'D', b'R'];
    png.extend_from_slice(&[0, 0, 1, 44, 0, 1, 0, 2]);
    assert_eq!(probe_image_dimensions(&png), ImageProbe::Dimensions(300, 65538));
    assert_eq!(probe_image_dimensions(&png[..20].to_vec()), ImageProbe::Unknown);

    let gif = b"GIF89a\x40\x01\xf0\x00rest".to_vec();
    assert_eq!(probe_image_dimensions(&gif), ImageProbe::Dimensions(320, 240));
    let gif87 = b"GIF87a\x01\x00\x02\x00".to_vec();
    assert_eq!(probe_image_dimensions(&gif87), ImageProbe::Dimensions(1, 2));

    assert_eq!(probe_image_dimensions(&vec![0xff, 0xd8, 0xff, 0xe0, 0, 16, 0, 0, 0, 0]), ImageProbe::Jpeg);
    assert_eq!(probe_image_dimensions(&vec![0xff, 0xd8, 0xff]), ImageProbe::Unknown);
    assert_eq!(probe_image_dimensions(&b"plain text file".to_vec()), ImageProbe::Unknown);
}

#[test]
fn jpeg_scan_finds_start_of_frame() {
    let mut data = vec![0xff, 0xd8];
    data.extend_from_slice(&[0xff, 0xe0, 0x00, 0x04, 0xaa, 0xbb]);
    data.extend_from_slice(&[0xff, 0xc0, 0x00, 0x11, 0x08, 0x01, 0xe0, 0x02, 0x80, 0x03]);
    data.extend_from_slice(&[0; 12]);
    assert_eq!(jpeg_dimensions(&data), Some((640, 480)));

    let mut progressive = vec![0xff, 0xd8, 0x00, 0xff, 0xd0, 0xff, 0xc2, 0x00, 0x08, 0x08, 0x00, 0x10, 0x00, 0x20];
    progressive.extend_from_slice(&[0; 8]);
    assert_eq!(jpeg_dimensions(&progressive), Some((32, 16)));

    let truncated = vec![0xff, 0xd8, 0xff, 0xe0, 0xff, 0xff, 0, 0, 0, 0, 0, 0, 0];
    assert_eq!(jpeg_dimensions(&truncated), None);
    assert_eq!(jpeg_dimensions(&vec![0xff, 0xd8]), None);
}

#[test]
fn image_summary_text() {
    let text = image_preview_summary("/p/a.png", 2048, Some((300, 200)));
    assert_eq!(
        text,
        "Image preview\nFile: /p/a.png\nSize: 2048 bytes\nDimensions: 300×200\n\nTip: press Enter to open with the system app, or e for $EDITOR."
    );
    let text = image_preview_summary("/p/b.gif", 0, None);
    assert!(text.contains("Dimensions: (unavailable)"));
}
