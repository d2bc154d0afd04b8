use pack_overlay::archive::read_archive;
use pack_overlay::engine::{blend_block_texture, prepare_overlay, run_pack};
use pack_overlay::errors::PackError;
use pack_overlay::layout::entry_selected;

const BLOCK_DIR: &str = "assets/minecraft/textures/block/";

fn make_png(width: u32, height: u32, rgba: [u8; 4]) -> Vec<u8> {
    let img = image::RgbaImage::from_pixel(width, height, image::Rgba(rgba));
    let mut cur = std::io::Cursor::new(Vec::new());
    img.write_to(&mut cur, image::ImageFormat::Png).unwrap();
    cur.into_inner()
}

fn make_zip(entries: &[(&str, &[u8])]) -> Vec<u8> {
    let mut w = zip::ZipWriter::new(std::io::Cursor::new(Vec::new()));
    let opts = zip::write::SimpleFileOptions::default();
    for (name, data) in entries {
        w.start_file(*name, opts).unwrap();
        std::io::Write::write_all(&mut w, data).unwrap();
    }
    w.finish().unwrap().into_inner()
}

fn decode(png: &[u8]) -> image::RgbaImage {
    image::load_from_memory(png).unwrap().to_rgba8()
}

#[test]
fn selected_entries_become_canonical_assets() {
    let a = make_png(16, 16, [100, 40, 200, 255]);
    let b = make_png(64, 64, [8, 16, 32, 128]);
    let nested = make_png(16, 16, [1, 2, 3, 4]);
    let zip_bytes = make_zip(&[
        (&format!("{}a.png", BLOCK_DIR), a.as_slice()),
        (&format!("{}b.png", BLOCK_DIR), b.as_slice()),
        (&format!("{}c.mcmeta", BLOCK_DIR), b"{\"animation\":{}}".as_slice()),
        (&format!("{}sub/d.png", BLOCK_DIR), nested.as_slice()),
        ("pack.png", nested.as_slice()),
    ]);
    let overlay = make_png(256, 256, [200, 120, 40, 77]);

    let out = run_pack(&zip_bytes, &overlay).unwrap();
    assert_eq!(out.manifest.as_bytes()[0], b'{');
    assert_eq!(out.assets.len(), 2);
    assert_eq!(out.assets[0].name, b"a.png".to_vec());
    assert_eq!(out.assets[1].name, b"b.png".to_vec());

    let img_a = decode(&out.assets[0].png);
    assert_eq!((img_a.width(), img_a.height()), (128, 128));
    for p in img_a.pixels() {
        assert_eq!(p.0, [125, 60, 160, 255]);
    }

    let img_b = decode(&out.assets[1].png);
    assert_eq!((img_b.width(), img_b.height()), (128, 128));
    for p in img_b.pixels() {
        assert_eq!(p.0, [56, 42, 34, 128]);
    }
}

#[test]
fn run_twice_is_byte_identical() {
    let a = make_png(16, 16, [100, 40, 200, 255]);
    let zip_bytes = make_zip(&[(&format!("{}a.png", BLOCK_DIR), a.as_slice())]);
    let overlay = make_png(32, 48, [10, 20, 30, 40]);

    let first = run_pack(&zip_bytes, &overlay).unwrap();
    let second = run_pack(&zip_bytes, &overlay).unwrap();
    assert_eq!(first.manifest, second.manifest);
    assert_eq!(first.assets.len(), second.assets.len());
    for (x, y) in first.assets.iter().zip(second.assets.iter()) {
        assert_eq!(x.name, y.name);
        assert_eq!(x.png, y.png);
    }
}

#[test]
fn corrupt_archive_is_an_archive_error() {
    let overlay = make_png(8, 8, [1, 2, 3, 4]);
    let result = run_pack(&b"this is not an archive".to_vec(), &overlay);
    assert_eq!(result.unwrap_err(), PackError::Archive);
}

#[test]
fn corrupt_overlay_is_a_decode_error() {
    let zip_bytes = make_zip(&[(&format!("{}a.png", BLOCK_DIR), b"junk".as_slice())]);
    let result = run_pack(&zip_bytes, &b"not an image".to_vec());
    assert_eq!(result.unwrap_err(), PackError::ImageDecode);
}

#[test]
fn corrupt_texture_is_a_decode_error() {
    let zip_bytes = make_zip(&[(&format!("{}a.png", BLOCK_DIR), b"junk".as_slice())]);
    let overlay = make_png(8, 8, [1, 2, 3, 4]);
    let result = run_pack(&zip_bytes, &overlay);
    assert_eq!(result.unwrap_err(), PackError::ImageDecode);
}

#[test]
fn archive_without_textures_yields_no_assets() {
    let zip_bytes = make_zip(&[("pack.png", b"ignored".as_slice())]);
    let overlay = make_png(8, 8, [1, 2, 3, 4]);
    let out = run_pack(&zip_bytes, &overlay).unwrap();
    assert!(out.assets.is_empty());
    assert!(!out.manifest.is_empty());
}

#[test]
fn read_archive_reports_entries_in_order() {
    let zip_bytes = make_zip(&[("first.txt", b"one".as_slice()), ("second.txt", b"two".as_slice())]);
    let entries = read_archive(&zip_bytes).unwrap();
    assert_eq!(entries.len(), 2);
    assert_eq!(entries[0].name, b"first.txt".to_vec());
    assert_eq!(entries[0].data, b"one".to_vec());
    assert!(!entries[0].is_dir);
    assert_eq!(entries[1].name, b"second.txt".to_vec());
    assert_eq!(entries[1].data, b"two".to_vec());
}

#[test]
fn read_archive_rejects_garbage() {
    assert_eq!(read_archive(&b"garbage".to_vec()).unwrap_err(), PackError::Archive);
}

#[test]
fn directory_entries_are_flagged_and_skipped() {
    let mut w = zip::ZipWriter::new(std::io::Cursor::new(Vec::new()));
    let opts = zip::write::SimpleFileOptions::default();
    w.add_directory(format!("{}folder", BLOCK_DIR), opts).unwrap();
    let zip_bytes = w.finish().unwrap().into_inner();

    let entries = read_archive(&zip_bytes).unwrap();
    assert_eq!(entries.len(), 1);
    assert!(entries[0].is_dir);
    assert!(!entry_selected(&entries[0].name, entries[0].is_dir));

    let overlay = make_png(8, 8, [1, 2, 3, 4]);
    let out = run_pack(&zip_bytes, &overlay).unwrap();
    assert!(out.assets.is_empty());
}

#[test]
fn selection_rules() {
    let name = |s: &str| s.as_bytes().to_vec();
    assert!(entry_selected(&name("assets/minecraft/textures/block/stone.png"), false));
    assert!(!entry_selected(&name("assets/minecraft/textures/block/stone.png"), true));
    assert!(!entry_selected(&name("assets/minecraft/textures/block/fire.png.mcmeta"), false));
    assert!(!entry_selected(&name("assets/minecraft/textures/block/sub/deep.png"), false));
    assert!(!entry_selected(&name("assets/minecraft/textures/block/"), false));
    assert!(!entry_selected(&name("assets/other/textures/block/stone.png"), false));
    assert!(!entry_selected(&name("pack.mcmeta"), false));
}

#[test]
fn blending_changes_the_source_texture() {
    let source = make_png(16, 16, [100, 40, 200, 255]);
    let overlay = prepare_overlay(&make_png(64, 64, [200, 120, 40, 77])).unwrap();
    assert_eq!((overlay.width, overlay.height), (128, 128));
    assert_eq!(overlay.data.len(), 128 * 128 * 4);
    let blended = blend_block_texture(&source, &overlay).unwrap();
    assert_eq!((blended.width, blended.height), (128, 128));
    // The blend moved every colour channel: the output is not the source.
    assert_eq!(&blended.data[0..4], &[125, 60, 160, 255]);
    let source_img = decode(&source);
    assert_ne!(source_img.get_pixel(0, 0).0, [125, 60, 160, 255]);
}
