use rsnip::errors::RsnipError;
use rsnip::screen::capture::{
    buffer_len, capture_region, capture_virtual_screen, describe_region, pixel_offset, row_len,
    surface_size, top_down_bgra_bitmap_info, CaptureRegion, CapturedImage, CopiedRows,
};
use rsnip::screen::monitor::{
    enumerate_monitors, initialize_dpi_awareness, rect_to_screen_rect, EdgeRect, NativeMonitor,
    ScreenRect, VirtualScreen,
};
use rsnip::screen::windows::{
    capture_region_from_rect, enumerate_selectable_windows, rect_from_region, window_at_point,
    window_bounds, window_title, NativeWindow, SelectableWindow, SelectableWindowHandle, SelectableWindowKind,
};
use rsnip::time::Elapsed;
use std::collections::HashSet;

fn gray(width: u32, height: u32, x: i32, y: i32) -> CapturedImage {
    let mut bgra = Vec::new();
    for i in 0..width * height {
        bgra.extend_from_slice(&[i as u8, i as u8, i as u8, 255]);
    }
    CapturedImage::new(x, y, width, height, bgra).unwrap()
}

fn screen() -> VirtualScreen {
    VirtualScreen::current(-100, 0, 300, 200).unwrap()
}

#[test]
fn crop_supports_negative_virtual_origin() {
    let mut bgra = Vec::new();
    for i in 0..16u8 {
        bgra.extend_from_slice(&[i, i, i, 255]);
    }
    let image = CapturedImage::new(-2, -2, 4, 4, bgra).unwrap();
    let crop = image
        .crop(CaptureRegion::new(-1, -1, 2, 2).unwrap())
        .unwrap();

    assert_eq!(crop.origin_x, -1);
    assert_eq!(crop.origin_y, -1);
    assert_eq!(crop.width, 2);
    assert_eq!(crop.height, 2);
    assert_eq!(crop.bgra.len(), 16);
}

#[test]
fn rejects_out_of_bounds_crop() {
    let image = CapturedImage::new(0, 0, 2, 2, vec![0; 16]).unwrap();
    assert!(image.crop(CaptureRegion::new(1, 1, 2, 2).unwrap()).is_err());
}

#[test]
fn a_crop_keeps_the_pixels() {
    let image = gray(4, 4, -2, -2);
    let crop = image.crop(CaptureRegion::new(-1, 0, 2, 2).unwrap()).unwrap();
    let shown: Vec<u8> = crop.bgra.chunks_exact(4).map(|pixel| pixel[0]).collect();
    assert_eq!(shown, vec![9, 10, 13, 14]);
}

#[test]
fn a_crop_of_a_crop_is_a_crop() {
    let image = gray(6, 5, 3, 4);
    let outer = CaptureRegion::new(4, 5, 4, 3).unwrap();
    let inner = CaptureRegion::new(5, 6, 2, 2).unwrap();
    assert_eq!(
        image.crop(outer).unwrap().crop(inner).unwrap(),
        image.crop(inner).unwrap()
    );
    assert_eq!(image.crop(image.full_region()).unwrap(), image);
    assert!(image.admits_crop(inner));
}

#[test]
fn an_outside_crop_is_explained() {
    let image = gray(2, 2, 0, 0);
    let region = CaptureRegion::new(1, 1, 2, 2).unwrap();
    assert_eq!(
        image.crop(region).unwrap_err().to_string(),
        format!(
            "crop region {} is outside captured image {}",
            describe_region(region),
            describe_region(image.full_region())
        )
    );
}

#[test]
fn images_hold_whole_pixels() {
    assert!(CapturedImage::new(0, 0, 2, 2, vec![0; 15]).is_err());
    assert!(CapturedImage::new(0, 0, 0, 2, vec![]).is_err());
    assert!(CaptureRegion::new(0, 0, 0, 1).is_err());
    assert_eq!(row_len(3).unwrap(), 12);
    assert_eq!(buffer_len(3, 2).unwrap(), 24);
    assert_eq!(pixel_offset(3, 1, 1).unwrap(), 16);
    let image = gray(3, 2, -1, -1);
    assert_eq!(image.offset_for_virtual_point(0, 0).unwrap(), 16);
    assert!(image.offset_for_virtual_point(2, 0).is_err());
    assert_eq!((image.right(), image.bottom()), (2, 1));
}

#[test]
fn copied_rows_make_an_image() {
    let region = CaptureRegion::new(5, 6, 1, 2).unwrap();
    let rows = CopiedRows { scan_lines: 2, bgra: vec![1, 2, 3, 4, 5, 6, 7, 8] };
    let capture = capture_region(region, rows, Elapsed::from_millis(7)).unwrap();
    assert_eq!(capture.image.full_region(), region);
    assert_eq!(capture.image.bgra, vec![1, 2, 3, 4, 5, 6, 7, 8]);
    assert_eq!(capture.metrics.elapsed, Elapsed::from_millis(7));
    let rows = CopiedRows { scan_lines: 1, bgra: vec![0; 8] };
    assert_eq!(
        capture_region(region, rows, Elapsed::zero()).unwrap_err(),
        RsnipError::Message("GetDIBits failed or returned partial data: 1/2".to_owned())
    );
}

#[test]
fn surfaces_fit_the_graphics_system() {
    let region = CaptureRegion { x: 0, y: 0, width: 640, height: 480 };
    assert_eq!(surface_size(region).unwrap(), (640, 480));
    let wide = CaptureRegion { x: 0, y: 0, width: u32::MAX, height: 1 };
    assert_eq!(
        surface_size(wide).unwrap_err().to_string(),
        "capture width too large: 4294967295"
    );
    let high = CaptureRegion { x: 0, y: 0, width: 1, height: 0x8000_0000 };
    assert_eq!(
        surface_size(high).unwrap_err().to_string(),
        "capture height too large: 2147483648"
    );
    let layout = top_down_bgra_bitmap_info(640, 480);
    assert_eq!((layout.width, layout.height), (640, -480));
    assert_eq!((layout.header_size, layout.bit_count), (40, 32));
}

#[test]
fn the_virtual_screen_is_captured_whole() {
    assert_eq!(
        capture_virtual_screen(screen()).unwrap(),
        CaptureRegion { x: -100, y: 0, width: 300, height: 200 }
    );
    assert!(VirtualScreen::current(0, 0, 0, 10).is_err());
    assert_eq!((screen().right(), screen().bottom()), (200, 200));
}

#[test]
fn monitors_are_told_by_their_edges() {
    let edges = EdgeRect { left: -10, top: 5, right: 30, bottom: 25 };
    assert_eq!(
        rect_to_screen_rect(edges),
        ScreenRect { x: -10, y: 5, width: 40, height: 20 }
    );
    let monitors = enumerate_monitors(Some(vec![
        NativeMonitor { bounds: edges, work_area: edges, flags: 1 },
        NativeMonitor { bounds: edges, work_area: edges, flags: 0 },
    ]))
    .unwrap();
    assert_eq!(monitors.len(), 2);
    assert!(monitors[0].primary && !monitors[1].primary);
    assert!(enumerate_monitors(None).is_err());
}

#[test]
fn either_way_of_scaling_will_do() {
    assert!(initialize_dpi_awareness(true, false).is_ok());
    assert!(initialize_dpi_awareness(false, true).is_ok());
    assert!(initialize_dpi_awareness(false, false).is_err());
}

#[test]
fn rectangles_contain_points_and_rectangles() {
    let rect = ScreenRect { x: 0, y: 0, width: 10, height: 10 };
    assert!(rect.contains_point(0, 0) && rect.contains_point(9, 9));
    assert!(!rect.contains_point(10, 9) && !rect.contains_point(-1, 0));
    assert!(rect.contains_rect(ScreenRect { x: 2, y: 2, width: 8, height: 8 }));
    assert!(!rect.contains_rect(ScreenRect { x: 2, y: 2, width: 9, height: 8 }));
}

#[test]
fn finds_first_z_order_window_containing_point() {
    let windows = vec![
        SelectableWindow {
            handle: SelectableWindowHandle(1),
            title: "top".to_owned(),
            bounds: CaptureRegion::new(10, 10, 20, 20).unwrap(),
            kind: SelectableWindowKind::Window,
        },
        SelectableWindow {
            handle: SelectableWindowHandle(2),
            title: "bottom".to_owned(),
            bounds: CaptureRegion::new(0, 0, 100, 100).unwrap(),
            kind: SelectableWindowKind::Window,
        },
    ];

    assert_eq!(
        window_at_point(&windows, 15, 15).map(|window| window.handle),
        Some(SelectableWindowHandle(1))
    );
    assert_eq!(
        window_at_point(&windows, 5, 5).map(|window| window.handle),
        Some(SelectableWindowHandle(2))
    );
    assert_eq!(window_at_point(&windows, 500, 500), None);
}

fn native(handle: isize, title: &str, left: i32, right: i32) -> NativeWindow {
    NativeWindow {
        handle: SelectableWindowHandle(handle),
        visible: true,
        minimized: false,
        title: Some(title.to_owned()),
        frame: Some(EdgeRect { left, top: 0, right, bottom: 100 }),
        rect: None,
    }
}

#[test]
fn hidden_and_minimized_windows_are_left_out() {
    let mut hidden = native(2, "hidden", 0, 50);
    hidden.visible = false;
    let mut minimized = native(3, "minimized", 0, 50);
    minimized.minimized = true;
    let mut nameless = native(4, "", 0, 50);
    nameless.title = None;
    let reported = Ok(vec![native(1, "shown", 0, 50), hidden, minimized, nameless]);
    let windows = enumerate_selectable_windows(screen(), &reported, None).unwrap();
    let handles: Vec<isize> = windows.iter().map(|window| window.handle.0).collect();
    assert_eq!(handles, vec![1]);
}

#[test]
fn the_taskbar_can_be_picked_too() {
    let bounds = CaptureRegion::new(-100, 160, 300, 40).unwrap();
    let taskbar = Some((SelectableWindowHandle(9), Some(bounds)));
    let windows =
        enumerate_selectable_windows(screen(), &Ok(vec![native(1, "shown", 0, 50)]), taskbar)
            .unwrap();
    let found = windows.iter().find(|window| window.handle.0 == 9).unwrap();
    assert_eq!(found.kind, SelectableWindowKind::Taskbar);
    assert_eq!(found.bounds, bounds);
}

#[test]
fn a_failed_listing_is_an_error() {
    assert!(enumerate_selectable_windows(screen(), &Err("denied".to_owned()), None).is_err());
}

#[test]
fn the_frame_goes_before_the_rectangle() {
    let frame = EdgeRect { left: 1, top: 2, right: 11, bottom: 12 };
    let rect = EdgeRect { left: 0, top: 0, right: 20, bottom: 20 };
    assert_eq!(window_bounds(Some(frame), Some(rect)), capture_region_from_rect(frame));
    assert_eq!(window_bounds(None, Some(rect)), capture_region_from_rect(rect));
    assert_eq!(window_bounds(None, None), None);
    assert_eq!(
        capture_region_from_rect(EdgeRect { left: 5, top: 5, right: 5, bottom: 9 }),
        None
    );
}

#[test]
fn titles_are_decoded() {
    let buffer: Vec<u16> = "hola\0".encode_utf16().collect();
    assert_eq!(window_title(4, &buffer, 4), Some("hola".to_owned()));
    assert_eq!(window_title(0, &buffer, 0), None);
}

#[test]
fn a_region_and_its_rectangle_stand_for_each_other() {
    let region = CaptureRegion::new(-3, 4, 5, 6).unwrap();
    let rect = rect_from_region(region);
    assert_eq!(rect, ScreenRect { x: -3, y: 4, width: 5, height: 6 });
}

#[test]
fn a_region_too_large_for_any_image_is_refused() {
    let image = gray(2, 2, 0, 0);
    let wrapped = CaptureRegion::new(1, 1, u32::MAX, u32::MAX).unwrap();
    assert!(image.admits_crop(wrapped));
    let message = image.crop(wrapped).unwrap_err().to_string();
    assert!(message.starts_with("image ") && message.contains("length overflow: 4294967295"));
}

#[test]
fn a_region_without_rows_is_refused() {
    let image = gray(2, 2, 0, 0);
    let flat = CaptureRegion { x: 1, y: 1, width: 0x8000_0001, height: 0 };
    assert!(image.admits_crop(flat));
    assert!(image.crop(flat).is_err());
    let empty = CaptureRegion { x: 1, y: 1, width: 1, height: 0 };
    assert_eq!(
        image.crop(empty).unwrap_err().to_string(),
        "image dimensions must be non-empty, got 1x0"
    );
}

#[test]
fn handles_can_be_gathered() {
    let handles = HashSet::from([SelectableWindowHandle(1), SelectableWindowHandle(1)]);
    assert_eq!(handles.len(), 1);
}
