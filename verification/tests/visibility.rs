use point_visibility::{Direction, Point, close_neighbours, visible_points_from_neighbours};

#[test]
fn visible_points_from_neighbours_handles_valid_input() {
    // arrange
    let points: Vec<Point> = vec![
        Point {
            coordinates: (8, 6),
            number: 5,
            direction: Direction::North,
        },
        Point {
            coordinates: (6, 19),
            number: 6,
            direction: Direction::East,
        },
        Point {
            coordinates: (28, 26),
            number: 19,
            direction: Direction::South,
        },
        Point {
            coordinates: (2, 12),
            number: 20,
            direction: Direction::West,
        },
    ];

    // act
    let outcome = visible_points_from_neighbours(20, 180, 10, &points);

    // assert
    assert_eq!(outcome.len(), 2);
    assert!(
        outcome
            .iter()
            .find(|Point { number, .. }| *number == 5)
            .is_some()
    );
    assert!(
        outcome
            .iter()
            .find(|Point { number, .. }| *number == 6)
            .is_some()
    );

    // arrange
    let points: Vec<Point> = vec![
        Point {
            coordinates: (8, 6),
            number: 5,
            direction: Direction::North,
        },
        Point {
            coordinates: (6, 19),
            number: 6,
            direction: Direction::East,
        },
        Point {
            coordinates: (28, 26),
            number: 19,
            direction: Direction::South,
        },
        Point {
            coordinates: (2, 12),
            number: 20,
            direction: Direction::West,
        },
    ];

    // act
    let outcome = visible_points_from_neighbours(19, 60, 30, &points);

    // assert
    assert_eq!(outcome.len(), 1);

    // act
    let outcome = visible_points_from_neighbours(20, 70, 10, &points);

    // assert
    assert_eq!(outcome.len(), 0);

    // arrange
    let points: Vec<Point> = vec![
        Point {
            coordinates: (8, 6),
            number: 5,
            direction: Direction::North,
        },
        Point {
            coordinates: (6, 19),
            number: 6,
            direction: Direction::East,
        },
        Point {
            coordinates: (28, 26),
            number: 19,
            direction: Direction::South,
        },
        Point {
            coordinates: (2, 12),
            number: 20,
            direction: Direction::East,
        },
    ];

    // act
    let outcome = visible_points_from_neighbours(20, 70, 10, &points);

    // assert
    assert_eq!(outcome.len(), 2);
    assert!(
        outcome
            .iter()
            .find(|Point { number, .. }| *number == 5)
            .is_some()
    );
    assert!(
        outcome
            .iter()
            .find(|Point { number, .. }| *number == 6)
            .is_some()
    );
}

#[test]
fn visible_points_from_neighbours_handles_empty_input_universe() {
    // arrange
    let points: Vec<Point> = vec![];

    // act
    let outcome = visible_points_from_neighbours(20, 45, 10, &points);

    // assert
    assert_eq!(outcome.len(), 0);
}

#[test]
fn absent_point_number_returns_empty_result() {
    let points: Vec<Point> = vec![
        Point {
            coordinates: (8, 6),
            number: 5,
            direction: Direction::North,
        },
        Point {
            coordinates: (6, 19),
            number: 6,
            direction: Direction::East,
        },
    ];

    let outcome = visible_points_from_neighbours(42, 180, 100, &points);

    assert_eq!(outcome.len(), 0);
}

#[test]
fn self_exclusion_holds_with_coincident_coordinates() {
    // two distinct points sharing one coordinate pair: the source is
    // excluded by identity number, not by position, so its coincident twin
    // can still be returned
    let points: Vec<Point> = vec![
        Point {
            coordinates: (5, 5),
            number: 1,
            direction: Direction::North,
        },
        Point {
            coordinates: (5, 5),
            number: 2,
            direction: Direction::North,
        },
    ];

    let outcome = visible_points_from_neighbours(1, 180, 10, &points);

    assert_eq!(outcome.len(), 1);
    assert_eq!(outcome[0].number, 2);
}

#[test]
fn coincident_candidate_resolves_to_bearing_west() {
    // the degenerate zero delta inherits the horizontal-alignment
    // convention: bearing 270, straight towards West
    let points: Vec<Point> = vec![
        Point {
            coordinates: (5, 5),
            number: 1,
            direction: Direction::West,
        },
        Point {
            coordinates: (5, 5),
            number: 2,
            direction: Direction::North,
        },
    ];

    let outcome = visible_points_from_neighbours(1, 0, 10, &points);
    assert_eq!(outcome.len(), 1);

    let points: Vec<Point> = vec![
        Point {
            coordinates: (5, 5),
            number: 1,
            direction: Direction::North,
        },
        Point {
            coordinates: (5, 5),
            number: 2,
            direction: Direction::North,
        },
    ];

    let outcome = visible_points_from_neighbours(1, 89, 10, &points);
    assert_eq!(outcome.len(), 0);
}

#[test]
fn full_half_angle_degenerates_to_radius_filter() {
    // a universe of 20 points: from point 1, ten lie strictly within
    // radius 20 (one of them due North, the others well south of the
    // sector), nine lie at or beyond it
    let mut points: Vec<Point> = vec![Point {
        coordinates: (0, 0),
        number: 1,
        direction: Direction::North,
    }];
    let near: [(i32, i32); 10] = [
        (0, 5),
        (0, -5),
        (1, -5),
        (-1, -5),
        (2, -7),
        (-2, -7),
        (3, -9),
        (-3, -9),
        (5, -5),
        (-5, -5),
    ];
    let far: [(i32, i32); 9] = [
        (0, 20),
        (30, 0),
        (25, 25),
        (-30, 0),
        (0, -30),
        (21, 21),
        (-21, 21),
        (40, 1),
        (-40, -1),
    ];
    let mut number: u32 = 2;
    for coordinates in near.iter().chain(far.iter()) {
        points.push(Point {
            coordinates: *coordinates,
            number,
            direction: Direction::South,
        });
        number += 1;
    }
    assert_eq!(points.len(), 20);

    // at 180 degrees no candidate is excluded by angle: the ten points
    // strictly inside the radius are returned, (0, 20) at exactly the
    // radius is not
    let outcome = visible_points_from_neighbours(1, 180, 20, &points);
    assert_eq!(outcome.len(), 10);

    // at 45 degrees only the candidate due North survives
    let outcome = visible_points_from_neighbours(1, 45, 20, &points);
    assert_eq!(outcome.len(), 1);
    assert_eq!(outcome[0].coordinates, (0, 5));
}

#[test]
fn radius_boundary_is_exclusive() {
    let source = Point {
        coordinates: (0, 0),
        number: 1,
        direction: Direction::North,
    };
    // a 3-4-5 triangle: the candidate sits at distance exactly 5
    let candidate = Point {
        coordinates: (3, 4),
        number: 2,
        direction: Direction::South,
    };
    let universe: Vec<Point> = vec![source, candidate];

    let at_radius = close_neighbours(&source, 180, 5, &universe);
    assert_eq!(at_radius.len(), 0);

    let just_inside = close_neighbours(&source, 180, 6, &universe);
    assert_eq!(just_inside.len(), 1);
    assert_eq!(just_inside[0].number, 2);
}

#[test]
fn sector_edge_is_inclusive() {
    let source = Point {
        coordinates: (0, 0),
        number: 1,
        direction: Direction::North,
    };
    let on_edge = Point {
        coordinates: (7, 7),
        number: 2,
        direction: Direction::South,
    };
    let past_edge = Point {
        coordinates: (7, 6),
        number: 3,
        direction: Direction::South,
    };
    let universe: Vec<Point> = vec![source, on_edge, past_edge];

    // bearing 45 is exactly on the edge of a 45-degree sector and is kept;
    // bearing atan(7/6), a fraction of a degree beyond it, is not
    let outcome = close_neighbours(&source, 45, 100, &universe);
    assert_eq!(outcome.len(), 1);
    assert_eq!(outcome[0].number, 2);

    // bearing 90 is exactly on the edge of a 90-degree sector
    let east = Point {
        coordinates: (10, 0),
        number: 4,
        direction: Direction::South,
    };
    let below_east = Point {
        coordinates: (10, -1),
        number: 5,
        direction: Direction::South,
    };
    let universe: Vec<Point> = vec![source, east, below_east];
    let outcome = close_neighbours(&source, 90, 100, &universe);
    assert_eq!(outcome.len(), 1);
    assert_eq!(outcome[0].number, 4);
}

#[test]
fn result_preserves_universe_order() {
    let points: Vec<Point> = vec![
        Point {
            coordinates: (0, 0),
            number: 9,
            direction: Direction::North,
        },
        Point {
            coordinates: (0, 3),
            number: 7,
            direction: Direction::South,
        },
        Point {
            coordinates: (0, 1),
            number: 8,
            direction: Direction::East,
        },
        Point {
            coordinates: (1, 2),
            number: 3,
            direction: Direction::West,
        },
    ];

    let outcome = visible_points_from_neighbours(9, 90, 10, &points);

    let numbers: Vec<u32> = outcome.iter().map(|p| p.number).collect();
    assert_eq!(numbers, vec![7, 8, 3]);
}

#[test]
fn duplicate_numbers_first_match_wins() {
    // two points share number 1; the first is the source, so the second is
    // an ordinary candidate
    let points: Vec<Point> = vec![
        Point {
            coordinates: (0, 0),
            number: 1,
            direction: Direction::North,
        },
        Point {
            coordinates: (0, 5),
            number: 1,
            direction: Direction::South,
        },
        Point {
            coordinates: (0, -5),
            number: 2,
            direction: Direction::South,
        },
    ];

    let outcome = visible_points_from_neighbours(1, 180, 10, &points);

    // the duplicate of the source's own number is excluded by identity,
    // whichever entry carries it; only number 2 remains
    assert_eq!(outcome.len(), 1);
    assert_eq!(outcome[0].number, 2);
}
