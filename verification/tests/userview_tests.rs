use rnbo_move_control::userview::{get_format, layer_image, read_layer_header, Format, UserView, UserViews, ViewData};

fn header(dirty: u8, w: u32, h: u32, x: i32, y: i32) -> Vec<u8> {
    let mut c = vec![0u8; 32];
    c[0] = dirty;
    c[4..8].copy_from_slice(&w.to_le_bytes());
    c[8..12].copy_from_slice(&h.to_le_bytes());
    c[12..16].copy_from_slice(&x.to_le_bytes());
    c[16..20].copy_from_slice(&y.to_le_bytes());
    c
}

#[test]
fn header_reads_little_endian_fields() {
    let mut c = header(1, 16, 2, -3, 70000);
    assert!(read_layer_header(&c).is_none());
    c.extend_from_slice(&[0xAA, 0xBB, 0xCC, 0xDD, 0xEE]);
    let h = read_layer_header(&c).unwrap();
    assert!(h.dirty);
    assert_eq!((h.width, h.height, h.x, h.y), (16, 2, -3, 70000));
    let (w, ht, img) = layer_image(&h, &c);
    assert_eq!((w, ht), (16, 2));
    assert_eq!(img, vec![0xAA, 0xBB, 0xCC, 0xDD]);
    c[0] = 2;
    assert!(!read_layer_header(&c).unwrap().dirty);
}

#[test]
fn image_without_size_takes_the_display() {
    let mut c = header(1, 0, 0, 0, 0);
    c.extend(std::iter::repeat(7u8).take(2000));
    let h = read_layer_header(&c).unwrap();
    let (w, ht, img) = layer_image(&h, &c);
    assert_eq!((w, ht), (128, 64));
    assert_eq!(img.len(), 16 * 64);
    // rows padded to whole bytes, and cut at the buffer's end
    let mut c = header(0, 9, 3, 0, 0);
    c.extend_from_slice(&[1, 2, 3, 4, 5]);
    let (_, _, img) = layer_image(&read_layer_header(&c).unwrap(), &c);
    assert_eq!(img, vec![1, 2, 3, 4, 5]);
}

#[test]
fn formats_from_names() {
    let f = get_format("buf-f32-2-48000");
    assert_eq!(f.format, Format::Float32Buffer);
    assert_eq!((f.channels, f.samplerate), (2, 48000));
    let f = get_format("buf-f64-x-44100");
    assert_eq!(f.format, Format::Float64Buffer);
    assert_eq!((f.channels, f.samplerate), (0, 44100));
    assert_eq!(get_format("buf-u8-1-1").format, Format::UserImage);
    assert_eq!(get_format("buf-f32-2").format, Format::UserImage);
}

fn vd(z: Option<i8>, name: Option<&str>, pv: Option<&str>, shm: Option<&str>) -> ViewData {
    ViewData::new(0, pv.map(|s| s.to_string()), z, false, name.map(|s| s.to_string()), shm.map(|s| s.to_string()), false)
}

#[test]
fn layers_one_per_buffer_in_z_order() {
    let mut v = UserView::new(None, None);
    v.update_layers("a".to_string(), &vd(Some(2), Some("first"), None, Some("a-u8-0-0")));
    v.update_layers("b".to_string(), &vd(Some(1), Some("second"), Some("pv"), None));
    v.update_layers("c".to_string(), &vd(None, None, None, None));
    let order: Vec<&str> = v.layers.iter().map(|l| l.buffer.as_str()).collect();
    assert_eq!(order, vec!["c", "b", "a"]);
    assert_eq!(v.name, Some("first".to_string()));
    assert_eq!(v.param_view_name, Some("pv".to_string()));
    // the same buffer again moves its layer, it does not add one
    v.update_layers("c".to_string(), &vd(Some(5), None, None, None));
    let order: Vec<&str> = v.layers.iter().map(|l| l.buffer.as_str()).collect();
    assert_eq!(order, vec!["b", "a", "c"]);
    v.set_layer_hidden(1, true);
    assert!(v.layers[0].hidden);
    v.set_layer_xor(2, true);
    assert!(v.layers[1].do_xor);
    assert!(!v.remove_layer(&"b".to_string()));
    assert!(!v.remove_layer(&"zz".to_string()));
    assert!(!v.remove_layer(&"a".to_string()));
    assert!(v.remove_layer(&"c".to_string()));
}

#[test]
fn equal_z_layers_keep_their_order_on_update() {
    let mut v = UserView::new(None, None);
    v.update_layers("a".to_string(), &vd(Some(0), None, Some("pa"), None));
    v.update_layers("b".to_string(), &vd(Some(0), None, Some("pb"), None));
    let order: Vec<&str> = v.layers.iter().map(|l| l.buffer.as_str()).collect();
    assert_eq!(order, vec!["a", "b"]);
    assert_eq!(v.param_view_name, Some("pa".to_string()));
    // updating the first of two equal-z layers leaves it first
    v.update_layers("a".to_string(), &vd(Some(0), None, Some("pa2"), None));
    let order: Vec<&str> = v.layers.iter().map(|l| l.buffer.as_str()).collect();
    assert_eq!(order, vec!["a", "b"]);
    assert_eq!(v.param_view_name, Some("pa2".to_string()));
    // the first layer with a z is the one the setters reach
    v.set_layer_hidden(0, true);
    assert!(v.layers[0].hidden);
    assert!(!v.layers[1].hidden);
    // a new layer with the same z goes after them
    v.update_layers("c".to_string(), &vd(Some(0), None, None, None));
    let order: Vec<&str> = v.layers.iter().map(|l| l.buffer.as_str()).collect();
    assert_eq!(order, vec!["a", "b", "c"]);
}

#[test]
fn user_views_by_index() {
    let mut u = UserViews::new();
    let mut d = vd(Some(1), Some("scope"), None, None);
    d.view_index = 3;
    u.update("a".to_string(), d);
    let mut d = vd(Some(0), None, None, None);
    d.view_index = 3;
    u.update("b".to_string(), d);
    u.update("c".to_string(), vd(None, None, None, None));
    assert_eq!(u.views.len(), 2);
    assert_eq!(u.views[0].0, 3);
    let order: Vec<&str> = u.views[0].1.layers.iter().map(|l| l.buffer.as_str()).collect();
    assert_eq!(order, vec!["b", "a"]);
    assert_eq!(u.views[0].1.name_or_default(3), "scope");
    assert_eq!(u.views[1].1.name_or_default(0), "view 0");
    assert!(!u.display(7));
    assert_eq!(u.shown, None);
    assert!(u.display(3));
    assert_eq!(u.shown, Some(3));
    u.set_layer_hidden(3, 1, true);
    assert!(u.views[0].1.layers[1].hidden);
    u.set_layer_xor(3, 0, true);
    assert!(u.views[0].1.layers[0].do_xor);
    u.views[0].1.layers[0].dirty = false;
    u.set_layer_dirty(3, 0);
    assert!(u.views[0].1.layers[0].dirty);
    // a view index with no view changes nothing
    u.set_layer_hidden(9, 0, true);
    assert!(!u.views[1].1.layers[0].hidden);
}

#[test]
fn view_name_setters() {
    let mut v = UserView::new(None, None);
    assert_eq!(v.name_or_default(12), "view 12");
    v.set_name(Some("mine".to_string()));
    assert_eq!(v.name_or_default(12), "mine");
    v.set_param_view_name(Some("pv".to_string()));
    assert_eq!(v.param_view_name, Some("pv".to_string()));
    assert!(v.empty());
    v.update_layers("a".to_string(), &vd(None, None, None, None));
    assert!(!v.empty());
    v.clear_layers();
    assert!(v.empty());
}

#[test]
fn draw_plan_skips_hidden_and_reads_dirty() {
    let mut v = UserView::new(None, None);
    let mut hidden = vd(Some(1), None, None, None);
    hidden.view_hidden = true;
    v.update_layers("h".to_string(), &hidden);
    let mut x = vd(Some(2), None, None, Some("img-u8-0-0"));
    x.view_xor = true;
    v.update_layers("x".to_string(), &x);
    v.update_layers("a".to_string(), &vd(Some(0), None, None, None));
    let plan = v.draw_plan();
    assert_eq!(plan.len(), 2);
    assert_eq!((plan[0].pos, plan[0].read, plan[0].xor), (0, true, false));
    assert_eq!((plan[1].pos, plan[1].read, plan[1].xor), (2, true, true));
    assert!(!v.drawable(2));
    // a buffer whose flag is not set gives nothing
    let mut c = header(0, 8, 2, 3, 4);
    c.extend_from_slice(&[0xFF, 0x0F]);
    assert!(!v.take_image(2, &c));
    assert!(v.layers[2].rendering.is_empty());
    // with the flag set, the image is taken; the caller then clears the flag
    c[0] = 1;
    assert!(v.take_image(2, &c));
    assert_eq!(v.layers[2].rendering, vec![0xFF, 0x0F]);
    assert_eq!((v.layers[2].width, v.layers[2].height, v.layers[2].x, v.layers[2].y), (8, 2, 3, 4));
    assert!(v.drawable(2));
    // a waveform is drawn once: the layer is then no longer dirty
    v.take_waveform(0, 128, 64, vec![1u8; 1024]);
    assert!(!v.layers[0].dirty);
    let plan = v.draw_plan();
    assert_eq!((plan[0].pos, plan[0].read), (0, false));
}

#[test]
fn shown_view_position() {
    let mut u = UserViews::new();
    assert_eq!(u.shown_pos(), None);
    let mut d = vd(None, None, None, None);
    d.view_index = 4;
    u.update("a".to_string(), d);
    assert_eq!(u.shown_pos(), None);
    assert!(u.display(4));
    assert_eq!(u.shown_pos(), Some(0));
}
