use toroidal::address::Address;
use toroidal::direction::Direction;
use toroidal::torus::Torus;

#[test]
fn neighbor_moves_one_step_inside_the_grid() {
    let a = Address::new(3, 5);
    assert_eq!(a.find_neighbor(Direction::Down, 32, 64), Address::new(4, 5));
    assert_eq!(a.find_neighbor(Direction::Up, 32, 64), Address::new(2, 5));
    assert_eq!(a.find_neighbor(Direction::Right, 32, 64), Address::new(3, 6));
    assert_eq!(a.find_neighbor(Direction::Left, 32, 64), Address::new(3, 4));
}

#[test]
fn neighbor_wraps_past_every_edge() {
    assert_eq!(
        Address::new(31, 5).find_neighbor(Direction::Down, 32, 64),
        Address::new(0, 5)
    );
    assert_eq!(
        Address::new(0, 5).find_neighbor(Direction::Up, 32, 64),
        Address::new(31, 5)
    );
    assert_eq!(
        Address::new(3, 63).find_neighbor(Direction::Right, 32, 64),
        Address::new(3, 0)
    );
    assert_eq!(
        Address::new(3, 0).find_neighbor(Direction::Left, 32, 64),
        Address::new(3, 63)
    );
}

#[test]
fn neighbor_stays_valid_for_every_direction_and_position() {
    let directions = [
        Direction::Up,
        Direction::Down,
        Direction::Left,
        Direction::Right,
    ];
    for row in 0..5 {
        for column in 0..7 {
            for direction in directions {
                let n = Address::new(row, column).find_neighbor(direction, 5, 7);
                assert!(n.row < 5, "row {} out of range", n.row);
                assert!(n.column < 7, "column {} out of range", n.column);
            }
        }
    }
}

#[test]
fn neighbor_directions_undo_each_other() {
    for row in 0..5 {
        for column in 0..7 {
            let a = Address::new(row, column);
            assert_eq!(
                a.find_neighbor(Direction::Up, 5, 7)
                    .find_neighbor(Direction::Down, 5, 7),
                a
            );
            assert_eq!(
                a.find_neighbor(Direction::Down, 5, 7)
                    .find_neighbor(Direction::Up, 5, 7),
                a
            );
            assert_eq!(
                a.find_neighbor(Direction::Left, 5, 7)
                    .find_neighbor(Direction::Right, 5, 7),
                a
            );
            assert_eq!(
                a.find_neighbor(Direction::Right, 5, 7)
                    .find_neighbor(Direction::Left, 5, 7),
                a
            );
        }
    }
}

#[test]
fn neighbor_on_single_cell_grid_stays_put() {
    let a = Address::new(0, 0);
    assert_eq!(a.find_neighbor(Direction::Up, 1, 1), a);
    assert_eq!(a.find_neighbor(Direction::Down, 1, 1), a);
    assert_eq!(a.find_neighbor(Direction::Left, 1, 1), a);
    assert_eq!(a.find_neighbor(Direction::Right, 1, 1), a);
}

#[test]
fn radius_is_the_sum_of_axis_differences() {
    let a = Address::new(3, 10);
    let b = Address::new(7, 2);
    assert_eq!(a.get_usize_radius(b), 12);
}

#[test]
fn radius_is_symmetric_and_zero_on_itself() {
    let a = Address::new(3, 10);
    let b = Address::new(7, 2);
    assert_eq!(a.get_usize_radius(b), b.get_usize_radius(a));
    assert_eq!(a.get_usize_radius(a), 0);
    assert_eq!(b.get_usize_radius(b), 0);
}

#[test]
fn radius_ignores_wraparound() {
    // Corner to corner on a 32 x 64 grid: the unwrapped distance, not the
    // toroidal shortest path (which would be 2).
    let a = Address::new(0, 0);
    let b = Address::new(31, 63);
    assert_eq!(a.get_usize_radius(b), 94);
}

#[test]
fn torus_allocates_one_cell_per_position() {
    let t: Torus<u8> = Torus::new(5, 7);
    assert_eq!(t.height, 5);
    assert_eq!(t.width, 7);
    assert_eq!(t.cells.len(), 35);
    assert!(t.cells.iter().all(|c| *c == 0));
}

#[test]
fn build_cells_counts_height_times_width() {
    let cells: Vec<u32> = Torus::<u32>::build_cells(4, 6);
    assert_eq!(cells.len(), 24);
}

#[test]
fn index_is_row_major() {
    let t: Torus<u8> = Torus::new(5, 7);
    assert_eq!(t.index(0, 0), 0);
    assert_eq!(t.index(0, 6), 6);
    assert_eq!(t.index(1, 0), 7);
    assert_eq!(t.index(4, 6), 34);
}

#[test]
fn index_is_a_bijection_onto_the_cell_range() {
    let t: Torus<u8> = Torus::new(5, 7);
    let mut seen = vec![false; 35];
    for row in 0..5 {
        for column in 0..7 {
            let i = t.index(row, column);
            assert!(i < 35);
            assert!(!seen[i], "index {} produced twice", i);
            seen[i] = true;
        }
    }
    assert!(seen.iter().all(|s| *s));
}

#[test]
fn address_index_matches_index() {
    let t: Torus<u8> = Torus::new(5, 7);
    for row in 0..5 {
        for column in 0..7 {
            assert_eq!(t.address_index(Address::new(row, column)), t.index(row, column));
        }
    }
}
