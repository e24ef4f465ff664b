use jpeg_to_pdf::ori::Orientation;

#[derive(Debug, PartialEq)]
struct OrientationData {
    display_width: usize,
    display_height: usize,
    translate_x: Option<usize>,
    translate_y: Option<usize>,
    rotate_cw: Option<f64>,
    scale_x: Option<f64>,
}

fn test_orientation(value: u32, expected: fn(width: usize, height: usize) -> OrientationData) {
    let (width, height) = (4032, 3024);

    let ori = Orientation {
        value,
        width,
        height,
    };

    let actual = OrientationData {
        display_width: ori.display_width(),
        display_height: ori.display_height(),
        translate_x: ori.translate_x(),
        translate_y: ori.translate_y(),
        rotate_cw: ori.rotate_cw().map(f64::from),
        scale_x: ori.scale_x().map(f64::from),
    };
    let expected = expected(width, height);

    assert_eq!(actual, expected);
}

#[test]
fn orientation_1() {
    test_orientation(1, |width, height| OrientationData {
        display_width: width,
        display_height: height,
        translate_x: None,
        translate_y: None,
        rotate_cw: None,
        scale_x: None,
    });
}

#[test]
fn orientation_2() {
    test_orientation(2, |width, height| OrientationData {
        display_width: width,
        display_height: height,
        translate_x: Some(width),
        translate_y: None,
        rotate_cw: None,
        scale_x: Some(-1.0),
    });
}

#[test]
fn orientation_3() {
    test_orientation(3, |width, height| OrientationData {
        display_width: width,
        display_height: height,
        translate_x: Some(width),
        translate_y: Some(height),
        rotate_cw: Some(180.0),
        scale_x: None,
    });
}

#[test]
fn orientation_4() {
    test_orientation(4, |width, height| OrientationData {
        display_width: width,
        display_height: height,
        translate_x: None,
        translate_y: Some(height),
        rotate_cw: Some(180.0),
        scale_x: Some(-1.0),
    });
}

#[test]
fn orientation_5() {
    test_orientation(5, |width, height| OrientationData {
        display_width: height,
        display_height: width,
        translate_x: Some(height),
        translate_y: Some(width),
        rotate_cw: Some(90.0),
        scale_x: Some(-1.0),
    });
}

#[test]
fn orientation_6() {
    test_orientation(6, |width, height| OrientationData {
        display_width: height,
        display_height: width,
        translate_x: None,
        translate_y: Some(width),
        rotate_cw: Some(270.0),
        scale_x: None,
    });
}

#[test]
fn orientation_7() {
    test_orientation(7, |width, height| OrientationData {
        display_width: height,
        display_height: width,
        translate_x: None,
        translate_y: None,
        rotate_cw: Some(270.0),
        scale_x: Some(-1.0),
    });
}

#[test]
fn orientation_8() {
    test_orientation(8, |width, height| OrientationData {
        display_width: height,
        display_height: width,
        translate_x: Some(height),
        translate_y: None,
        rotate_cw: Some(90.0),
        scale_x: None,
    });
}
