use after_effects::error::Error;
use after_effects::layer::{Layer, Rect};

fn rect() -> Rect {
    Rect { left: 1, top: 2, right: 3, bottom: 4 }
}

#[test]
fn a_layer_is_its_geometry_and_its_bytes() {
    let layer = Layer::new(2, 3, 8, rect(), (0..24).collect()).unwrap();
    assert_eq!(layer.width(), 2);
    assert_eq!(layer.height(), 3);
    assert_eq!(layer.rowbytes(), 8);
    assert_eq!(layer.buffer_stride(), 8);
    assert_eq!(layer.extent_hint(), rect());
    assert_eq!(layer.buffer().len(), 24);
    assert_eq!(layer.buffer()[23], 23);
}

#[test]
fn rows_may_go_downward_in_memory() {
    let layer = Layer::new(2, 3, -8, rect(), vec![1; 24]).unwrap();
    assert_eq!(layer.rowbytes(), -8);
    assert_eq!(layer.buffer_stride(), 8);
    assert_eq!(layer.buffer().len(), 24);
    assert_eq!(layer.buffer_offset(), -16);
    assert_eq!(Layer::new(2, 3, 8, rect(), vec![1; 24]).unwrap().buffer_offset(), 0);
    assert_eq!(Layer::new(2, 1, -8, rect(), vec![1; 8]).unwrap().buffer_offset(), 0);
    assert_eq!(Layer::new(2, 0, -8, rect(), vec![]).unwrap().buffer_offset(), 8);
}

#[test]
fn bytes_that_do_not_fit_the_geometry_are_refused() {
    for (w, h, rowbytes, len) in [
        (2, 3, 8, 23usize),
        (2, 3, 8, 25),
        (2, 3, 0, 0),
        (-1, 3, 8, 24),
        (2, -3, 8, 24),
        (2, 3, -8, 0),
        (2, 0, 8, 8),
        (0, 1, i32::MIN, 0),
    ] {
        let layer = Layer::new(w, h, rowbytes, rect(), vec![0; len]);
        assert_eq!(layer.err(), Some(Error::BadCallbackParameter));
    }
    assert!(Layer::new(2, 0, 8, rect(), vec![]).is_ok());
    assert!(Layer::new(0, 0, -1, rect(), vec![]).is_ok());
}

#[test]
fn the_bytes_are_replaced_only_by_as_many() {
    let mut layer = Layer::new(1, 2, 4, rect(), vec![0; 8]).unwrap();
    assert_eq!(layer.write_buffer(vec![5; 8]), Ok(()));
    assert_eq!(layer.buffer(), &[5; 8]);
    assert_eq!(layer.write_buffer(vec![6; 7]), Err(Error::BadCallbackParameter));
    assert_eq!(layer.write_buffer(vec![]), Err(Error::BadCallbackParameter));
    assert_eq!(layer.buffer(), &[5; 8]);
    assert_eq!(layer.width(), 1);
    assert_eq!(layer.height(), 2);
}
