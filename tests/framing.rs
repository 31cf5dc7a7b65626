use meme_frame::{
    build_canvas, captions, draw_hollow_rect, frame_image, framed_size, load_font, text_x, text_y,
    Args, Bitmap, FrameError, Rgb, BORDER_THICKNESS, PADDING, TEXT_MARGIN, TEXT_SIZE,
};

fn white() -> Rgb {
    Rgb::new(255, 255, 255)
}

fn black() -> Rgb {
    Rgb::new(0, 0, 0)
}

/// A source image whose pixels all differ from black and white.
fn patterned(w: usize, h: usize) -> Bitmap {
    let mut img = Bitmap::new(w, h);
    for y in 0..h {
        for x in 0..w {
            img.put_pixel(x, y, Rgb::new((x % 200) as u8 + 1, (y % 200) as u8 + 1, 7));
        }
    }
    img
}

#[test]
fn canvas_dimensions_for_example_image() {
    let src = patterned(100, 80);
    let canvas = build_canvas(&src);
    assert_eq!(canvas.width(), 200);
    assert_eq!(canvas.height(), 300);
}

#[test]
fn canvas_dimensions_follow_formula() {
    for (w, h) in [(1usize, 1usize), (3, 7), (17, 2)] {
        let canvas = build_canvas(&patterned(w, h));
        assert_eq!(canvas.width(), 2 * PADDING + w);
        assert_eq!(canvas.height(), PADDING + h + 2 * TEXT_MARGIN + TEXT_SIZE + PADDING);
    }
}

#[test]
fn interior_equals_source() {
    let src = patterned(12, 9);
    let canvas = build_canvas(&src);
    for y in 0..9 {
        for x in 0..12 {
            assert_eq!(canvas.get_pixel(PADDING + x, PADDING + y), src.get_pixel(x, y));
        }
    }
}

#[test]
fn border_band_is_white_and_outside_is_black() {
    let (w, h) = (12usize, 9usize);
    let canvas = build_canvas(&patterned(w, h));
    for y in 0..canvas.height() {
        for x in 0..canvas.width() {
            let inside = x >= PADDING && x < PADDING + w && y >= PADDING && y < PADDING + h;
            let near = x + BORDER_THICKNESS > PADDING
                && x + 1 < PADDING + w + BORDER_THICKNESS
                && y + BORDER_THICKNESS > PADDING
                && y + 1 < PADDING + h + BORDER_THICKNESS;
            if !inside && near {
                assert_eq!(canvas.get_pixel(x, y), white(), "({x}, {y})");
            } else if !inside {
                assert_eq!(canvas.get_pixel(x, y), black(), "({x}, {y})");
            }
        }
    }
    assert_eq!(canvas.get_pixel(46, 46), white());
    assert_eq!(canvas.get_pixel(45, 45), black());
    assert_eq!(canvas.get_pixel(PADDING + w + 3, PADDING), white());
    assert_eq!(canvas.get_pixel(PADDING + w + 4, PADDING), black());
}

#[test]
fn zero_sized_source_still_gets_a_frame() {
    let canvas = build_canvas(&Bitmap::new(0, 0));
    assert_eq!(canvas.width(), 100);
    assert_eq!(canvas.height(), 220);
    assert_eq!(canvas.get_pixel(50, 50), white());
    assert_eq!(canvas.get_pixel(46, 53), white());
    assert_eq!(canvas.get_pixel(45, 50), black());
}

#[test]
fn hollow_rect_draws_outline_only() {
    let mut img = Bitmap::new(6, 5);
    draw_hollow_rect(&mut img, 1, 1, 4, 3, white());
    for y in 0..5 {
        for x in 0..6 {
            let on = (1..5).contains(&x)
                && (1..4).contains(&y)
                && (x == 1 || x == 4 || y == 1 || y == 3);
            assert_eq!(img.get_pixel(x, y), if on { white() } else { black() }, "({x}, {y})");
        }
    }
}

#[test]
fn hollow_rect_of_zero_size_draws_nothing() {
    let mut img = Bitmap::new(3, 3);
    draw_hollow_rect(&mut img, 1, 1, 0, 2, white());
    for y in 0..3 {
        for x in 0..3 {
            assert_eq!(img.get_pixel(x, y), black());
        }
    }
}

#[test]
fn copy_from_places_source_at_offset() {
    let mut dst = Bitmap::filled(5, 4, white());
    let src = patterned(2, 2);
    dst.copy_from(&src, 3, 1);
    assert_eq!(dst.get_pixel(3, 1), src.get_pixel(0, 0));
    assert_eq!(dst.get_pixel(4, 2), src.get_pixel(1, 1));
    assert_eq!(dst.get_pixel(2, 1), white());
    assert_eq!(dst.get_pixel(3, 0), white());
    assert_eq!(dst.get_pixel(3, 3), white());
}

#[test]
fn caption_origin_for_example_image() {
    let framed = frame_image(&patterned(100, 80), 40);
    assert_eq!(framed.canvas.width(), 200);
    assert_eq!(framed.canvas.height(), 300);
    assert_eq!(framed.text_x, 80);
    assert_eq!(framed.text_y, 160);
}

#[test]
fn caption_is_centred() {
    assert_eq!(text_x(200, 100), 50);
    assert_eq!(text_x(201, 51), 75);
    assert_eq!(text_x(200, 0), 100);
    for (c, m) in [(200usize, 100usize), (201, 51), (7, 4), (300, 299)] {
        let x = text_x(c, m) as i64;
        let (c, m) = (c as i64, m as i64);
        let right_gap = c - (x + m);
        assert!((right_gap - x).abs() <= 1);
    }
}

#[test]
fn caption_wider_than_canvas_starts_left_of_it() {
    assert_eq!(text_x(100, 300), -100);
}

#[test]
fn caption_row_is_below_image() {
    assert_eq!(text_y(80), 160);
    assert_eq!(text_y(0), 80);
}

#[test]
fn framed_size_reports_dimensions() {
    assert_eq!(framed_size(100, 80), Some((200, 300)));
    assert_eq!(framed_size(0, 0), Some((100, 220)));
}

#[test]
fn framed_size_rejects_overflow() {
    assert_eq!(framed_size(usize::MAX, 1), None);
    assert_eq!(framed_size(1, usize::MAX - 219), None);
    assert_eq!(framed_size(1, usize::MAX - 220), Some((101, usize::MAX)));
}

#[test]
fn second_caption_makes_image_taller() {
    let src = patterned(30, 20);
    let once = frame_image(&src, 10).canvas;
    let once_again = frame_image(&src, 10).canvas;
    let twice = frame_image(&once, 10).canvas;
    assert!(twice.height() > once.height());
    assert_eq!(twice.height(), once.height() + 220);
    assert_eq!(twice.width(), once.width() + 100);
    for y in 0..once.height() {
        for x in 0..once.width() {
            assert_eq!(once.get_pixel(x, y), once_again.get_pixel(x, y));
            assert_eq!(twice.get_pixel(PADDING + x, PADDING + y), once.get_pixel(x, y));
        }
    }
}

#[test]
fn no_caption_means_default_caption() {
    assert_eq!(captions(vec![]), vec!["WHAT?".to_string()]);
    assert_eq!(captions(vec![]), captions(vec!["WHAT?".to_string()]));
}

#[test]
fn given_captions_are_kept_in_order() {
    let given = vec!["A".to_string(), "B".to_string()];
    assert_eq!(captions(given.clone()), given);
}

#[test]
fn args_into_captions() {
    let args = Args {
        image: "in.png".to_string(),
        output: "out.png".to_string(),
        text: vec![],
        font: None,
    };
    assert_eq!(args.into_captions(), vec!["WHAT?".to_string()]);
}

#[test]
fn invalid_font_data_is_rejected() {
    assert!(matches!(load_font(vec![]), Err(FrameError::FontParse)));
    assert!(matches!(load_font(b"not a font at all".to_vec()), Err(FrameError::FontParse)));
}

#[test]
fn error_messages_and_exit_code() {
    assert_eq!(FrameError::ImageOpen.message(), "Failed to open original image file");
    assert_eq!(FrameError::FontRead.message(), "Failed to open font file");
    assert_eq!(FrameError::FontParse.message(), "Failed to parse font file");
    assert_eq!(FrameError::TooLarge.message(), "Image too large to frame");
    assert_eq!(FrameError::ImageSave.message(), "Failed to save output image");
    assert_eq!(FrameError::ImageSave.exit_code(), 1);
}

#[test]
fn png_round_trip_keeps_canvas() {
    let canvas = build_canvas(&patterned(9, 6));
    let (w, h) = (canvas.width(), canvas.height());
    let mut rgb = image::RgbImage::new(w as u32, h as u32);
    for y in 0..h {
        for x in 0..w {
            let c = canvas.get_pixel(x, y);
            rgb.put_pixel(x as u32, y as u32, image::Rgb([c.r, c.g, c.b]));
        }
    }
    let mut bytes: Vec<u8> = Vec::new();
    image::DynamicImage::ImageRgb8(rgb)
        .write_to(&mut std::io::Cursor::new(&mut bytes), image::ImageFormat::Png)
        .unwrap();
    let back = image::load_from_memory(&bytes).unwrap().to_rgb8();
    assert_eq!((back.width() as usize, back.height() as usize), (w, h));
    for y in 0..h {
        for x in 0..w {
            let p = back.get_pixel(x as u32, y as u32).0;
            assert_eq!(Rgb::new(p[0], p[1], p[2]), canvas.get_pixel(x, y));
        }
    }
}
