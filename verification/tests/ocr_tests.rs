use riemann_core::ocr::{encode_rgba_png, ocr_outcome, prepare_ocr_image, OcrEngine, OcrError};

#[test]
fn failing_worker_surfaces_diagnostics() {
    let stdout = b"partial text".to_vec();
    let stderr = b"could not read image".to_vec();
    let outcome = ocr_outcome(false, &stdout, &stderr);
    assert_eq!(outcome, Err(OcrError::WorkerFailed(String::from("could not read image"))));
}

#[test]
fn successful_worker_returns_stdout_text() {
    let stdout = b"recognized words\n".to_vec();
    let stderr = b"warning: noisy page".to_vec();
    assert_eq!(ocr_outcome(true, &stdout, &stderr), Ok(String::from("recognized words\n")));
}

#[test]
fn invalid_output_bytes_are_replaced_not_rejected() {
    let stdout = vec![0xffu8, b'o', b'k'];
    assert_eq!(ocr_outcome(true, &stdout, &Vec::new()), Ok(String::from("\u{fffd}ok")));
}

#[test]
fn empty_streams_decode_to_empty_text() {
    assert_eq!(ocr_outcome(true, &Vec::new(), &Vec::new()), Ok(String::new()));
    assert_eq!(
        ocr_outcome(false, &Vec::new(), &Vec::new()),
        Err(OcrError::WorkerFailed(String::new()))
    );
}

#[test]
fn prepared_image_is_png_with_swapped_channels() {
    // One blue-green-red-alpha pixel; the encoder must see it in
    // red-green-blue-alpha order.
    let png = prepare_ocr_image(1, 1, vec![1, 2, 3, 4]).unwrap();
    assert_eq!(&png[0..8], &[0x89, b'P', b'N', b'G', b'\r', b'\n', 0x1a, b'\n']);
    let decoded = image::load_from_memory(&png).unwrap().into_rgba8();
    assert_eq!(decoded.width(), 1);
    assert_eq!(decoded.height(), 1);
    assert_eq!(decoded.get_pixel(0, 0).0, [3, 2, 1, 4]);
}

#[test]
fn encoded_png_keeps_rgba_channel_order() {
    // Two pixels, already in red-green-blue-alpha order: the encoding
    // must preserve them as they are.
    let pixels = vec![10u8, 20, 30, 255, 40, 50, 60, 255];
    let png = encode_rgba_png(2, 1, &pixels).unwrap();
    let decoded = image::load_from_memory(&png).unwrap().into_rgba8();
    assert_eq!(decoded.get_pixel(0, 0).0, [10, 20, 30, 255]);
    assert_eq!(decoded.get_pixel(1, 0).0, [40, 50, 60, 255]);
}

#[test]
fn malformed_ocr_buffer_is_rejected() {
    assert_eq!(prepare_ocr_image(2, 2, vec![0u8; 4]), Err(OcrError::MalformedBuffer));
    assert_eq!(encode_rgba_png(2, 2, &vec![0u8; 4]), Err(OcrError::MalformedBuffer));
}

#[test]
fn engine_handles_are_interchangeable() {
    assert_eq!(OcrEngine::new(), OcrEngine::default());
}
