use falling_blocks::space_partition::Area;
use falling_blocks::space_partition::Partition;
use falling_blocks::space_partition::SizeConstraint;
use falling_blocks::space_partition::calculate_layout;
use falling_blocks::utils::Rect;

#[test]
fn test_horizontal_partition_fixed_sizes() {
    let area = Area {
        name: "root".to_string(),
        partition: Some(Partition::Horizontal),
        size: None,
        areas: vec![
            Area {
                name: "left".to_string(),
                partition: None,
                size: Some(SizeConstraint::Fixed(20)),
                areas: Vec::new(),
            },
            Area {
                name: "right".to_string(),
                partition: None,
                size: Some(SizeConstraint::Rest),
                areas: Vec::new(),
            },
        ],
    };

    let available_space = Rect::new(0, 0, 50, 10);
    let layouts = calculate_layout(&area, available_space);
    assert_eq!(
        layouts.get("left"),
        Some(Rect::new(0, 0, 20, available_space.height))
    );
    assert_eq!(
        layouts.get("right"),
        Some(Rect::new(
            20,
            0,
            available_space.width - 20,
            available_space.height
        ))
    );
}

#[test]
fn test_vertical_partition_with_rest() {
    let area = Area {
        name: "root".to_string(),
        partition: Some(Partition::Vertical),
        size: None,
        areas: vec![
            Area {
                name: "top".to_string(),
                partition: None,
                size: Some(SizeConstraint::Rest),
                areas: Vec::new(),
            },
            Area {
                name: "bottom".to_string(),
                partition: None,
                size: Some(SizeConstraint::Fixed(20)),
                areas: Vec::new(),
            },
        ],
    };

    let available_space = Rect::new(0, 0, 10, 50);
    let layouts = calculate_layout(&area, available_space);

    assert_eq!(
        layouts.get("top"),
        Some(Rect::new(0, 0, available_space.width, 30))
    );
    assert_eq!(
        layouts.get("bottom"),
        Some(Rect::new(0, 30, available_space.width, 20))
    );
}

#[test]
fn test_builders_compose() {
    let area = Area::new("root")
        .with_partition(Partition::Horizontal)
        .add_sub_area(Area::new("a").with_size_constraint(SizeConstraint::Fixed(5)))
        .add_sub_area(Area::new("b").with_size_constraint(SizeConstraint::Rest));
    assert_eq!(area.name, "root");
    assert_eq!(area.areas.len(), 2);
    assert_eq!(area.areas[0].name, "a");
    assert_eq!(area.areas[1].name, "b");

    let layouts = calculate_layout(&area, Rect::new(0, 0, 12, 4));
    assert_eq!(layouts.get("a"), Some(Rect::new(0, 0, 5, 4)));
    assert_eq!(layouts.get("b"), Some(Rect::new(5, 0, 7, 4)));
    assert_eq!(layouts.get("missing"), None);
}

#[test]
fn test_nested_partition_recurses() {
    let area = Area::new("root")
        .with_partition(Partition::Vertical)
        .add_sub_area(
            Area::new("upper")
                .with_size_constraint(SizeConstraint::Fixed(6))
                .with_partition(Partition::Horizontal)
                .add_sub_area(Area::new("ul").with_size_constraint(SizeConstraint::Fixed(3)))
                .add_sub_area(Area::new("ur").with_size_constraint(SizeConstraint::Rest)),
        )
        .add_sub_area(Area::new("lower").with_size_constraint(SizeConstraint::Rest));

    let layouts = calculate_layout(&area, Rect::new(0, 0, 10, 10));
    assert_eq!(layouts.get("upper"), Some(Rect::new(0, 0, 10, 6)));
    assert_eq!(layouts.get("lower"), Some(Rect::new(0, 6, 10, 4)));
    assert_eq!(layouts.get("ul"), Some(Rect::new(0, 0, 3, 6)));
    assert_eq!(layouts.get("ur"), Some(Rect::new(3, 0, 7, 6)));
}

#[test]
fn test_duplicate_name_later_entry_wins() {
    let area = Area::new("root")
        .with_partition(Partition::Horizontal)
        .add_sub_area(Area::new("twin").with_size_constraint(SizeConstraint::Fixed(2)))
        .add_sub_area(Area::new("twin").with_size_constraint(SizeConstraint::Fixed(3)));

    let layouts = calculate_layout(&area, Rect::new(0, 0, 10, 1));
    assert_eq!(layouts.get("twin"), Some(Rect::new(2, 0, 3, 1)));
}
