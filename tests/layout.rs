use bevy_mod_meshtext::{
    get_x_offset, get_y_offset, get_z_offset, DepthLayout, HorizontalLayout, VerticalLayout,
    HALF_EM, UNITS_PER_EM,
};

#[test]
fn layout_defaults() {
    assert_eq!(VerticalLayout::default(), VerticalLayout::Bottom);
    assert_eq!(HorizontalLayout::default(), HorizontalLayout::Left);
    assert_eq!(DepthLayout::default(), DepthLayout::Centered);
}

#[test]
fn depth_offsets() {
    assert_eq!(get_z_offset(&DepthLayout::Centered, 10), 0);
    assert_eq!(get_z_offset(&DepthLayout::Front, 10), -327_680);
    assert_eq!(get_z_offset(&DepthLayout::Back, 10), 327_680);
    assert_eq!(get_z_offset(&DepthLayout::Front, 0), 0);
}

#[test]
fn horizontal_offsets() {
    assert_eq!(get_x_offset(&HorizontalLayout::Left, 100), 0);
    assert_eq!(get_x_offset(&HorizontalLayout::Right, 100), -100);
    assert_eq!(get_x_offset(&HorizontalLayout::Centered, 100), -50);
    assert_eq!(get_x_offset(&HorizontalLayout::Centered, 7), -3);
    assert_eq!(get_x_offset(&HorizontalLayout::Centered, -7), 4);
}

#[test]
fn vertical_offsets() {
    assert_eq!(get_y_offset(&VerticalLayout::Bottom, 10, 3, 0), 0);
    assert_eq!(get_y_offset(&VerticalLayout::Bottom, 10, 3, 2), 1_310_720);
    assert_eq!(get_y_offset(&VerticalLayout::Top, 10, 3, 0), -655_360);
    assert_eq!(get_y_offset(&VerticalLayout::Top, 10, 3, 2), -1_966_080);
    assert_eq!(get_y_offset(&VerticalLayout::Centered, 10, 2, 0), 0);
    assert_eq!(get_y_offset(&VerticalLayout::Centered, 10, 2, 1), -655_360);
    assert_eq!(get_y_offset(&VerticalLayout::Centered, 10, 1, 0), -327_680);
}

#[test]
fn vertical_offsets_largest_inputs() {
    let h = u32::MAX as i128;
    let n = usize::MAX as i128;
    assert_eq!(
        get_y_offset(&VerticalLayout::Top, u32::MAX, usize::MAX, usize::MAX - 1),
        -(h * UNITS_PER_EM * n)
    );
    assert_eq!(
        get_y_offset(&VerticalLayout::Centered, u32::MAX, usize::MAX, 0),
        -(h * UNITS_PER_EM) + h * HALF_EM * n
    );
}

#[test]
fn centered_offsets_balance() {
    for n in 1usize..8 {
        let h: u32 = 37;
        let sum: i128 = (0..n)
            .map(|i| get_y_offset(&VerticalLayout::Centered, h, n, i))
            .sum();
        let half_line = h as i128 * HALF_EM;
        assert_eq!(sum, -(n as i128) * half_line);
        // line midpoints average to the origin
        assert_eq!(sum + n as i128 * half_line, 0);
    }
}
