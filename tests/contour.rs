use plotpy::{Contour, Decimal, GraphMaker};

fn d(m: i64, e: i32) -> Decimal {
    Decimal::new(m, e)
}

fn gen_xyz() -> (Vec<Vec<Decimal>>, Vec<Vec<Decimal>>, Vec<Vec<Decimal>>) {
    let x = vec![
        vec![d(-1, 0), d(-5, -1), d(0, 0), d(5, -1)],
        vec![d(-1, 0), d(-5, -1), d(0, 0), d(5, -1)],
        vec![d(-1, 0), d(-5, -1), d(0, 0), d(5, -1)],
        vec![d(-1, 0), d(-5, -1), d(0, 0), d(5, -1)],
    ];
    let y = vec![
        vec![d(-1, 0), d(-1, 0), d(-1, 0), d(-1, 0)],
        vec![d(-5, -1), d(-5, -1), d(-5, -1), d(-5, -1)],
        vec![d(0, 0), d(0, 0), d(0, 0), d(0, 0)],
        vec![d(5, -1), d(5, -1), d(5, -1), d(5, -1)],
    ];
    let z = vec![
        vec![d(200, -2), d(125, -2), d(100, -2), d(125, -2)],
        vec![d(125, -2), d(50, -2), d(25, -2), d(50, -2)],
        vec![d(100, -2), d(25, -2), d(0, -2), d(25, -2)],
        vec![d(125, -2), d(50, -2), d(25, -2), d(50, -2)],
    ];
    (x, y, z)
}

#[test]
fn options_works() -> Result<(), &'static str> {
    let mut contour = Contour::new();
    let (x, y, z) = gen_xyz();
    contour.draw_filled(&x, &y, &z)?;
    Ok(())
}

#[test]
fn new_contour_has_empty_buffer() {
    let contour = Contour::new();
    assert_eq!(contour.get_buffer().len(), 0);
    assert_eq!(contour.options(), "");
}

#[test]
fn options_follow_colors_and_levels() {
    let mut contour = Contour::new();
    contour.colors = vec![String::from("red"), String::from("blue")];
    assert_eq!(contour.options(), ",colors=['red','blue',]");
    contour.levels = vec![d(1, -1), d(5, 0)];
    assert_eq!(contour.options(), ",colors=['red','blue',],levels=[0.1,5,]");
    contour.colors = Vec::new();
    assert_eq!(contour.options(), ",levels=[0.1,5,]");
}

#[test]
fn draw_filled_writes_three_grids_and_one_call() {
    let mut contour = Contour::new();
    contour.levels = vec![d(25, -2)];
    let x = vec![vec![d(0, 0), d(1, 0)], vec![d(0, 0), d(1, 0)]];
    let y = vec![vec![d(0, 0), d(0, 0)], vec![d(1, 0), d(1, 0)]];
    let z = vec![vec![d(15, -1), d(-2, 0)], vec![d(0, 0), d(1, 3)]];
    contour.draw_filled(&x, &y, &z).unwrap();
    let correct = "x=np.array([[0,1,],[0,1,],],dtype=float)\n\
                   y=np.array([[0,0,],[1,1,],],dtype=float)\n\
                   z=np.array([[1.5,-2,],[0,1000,],],dtype=float)\n\
                   plt.contourf(x,y,z,levels=[0.25,])\n";
    assert_eq!(contour.get_buffer(), correct);
    contour.draw_filled(&x, &y, &z).unwrap();
    assert_eq!(contour.get_buffer().len(), 2 * correct.len());
    assert_eq!(contour.get_buffer().lines().count(), 8);
}

#[test]
fn draw_filled_refuses_mismatched_or_ragged_grids() {
    let mut contour = Contour::new();
    let x = vec![vec![d(0, 0), d(1, 0)], vec![d(0, 0), d(1, 0)]];
    let short = vec![vec![d(0, 0), d(1, 0)]];
    assert!(contour.draw_filled(&x, &short, &x).is_err());
    assert!(contour.draw_filled(&x, &x, &short).is_err());
    let ragged = vec![vec![d(0, 0), d(1, 0)], vec![d(0, 0)]];
    assert!(contour.draw_filled(&ragged, &ragged, &ragged).is_err());
    assert_eq!(contour.get_buffer().len(), 0);
}

#[test]
fn decimal_text_places_the_point() {
    assert_eq!(d(0, 5).to_text(), "0");
    assert_eq!(d(7, 3).to_text(), "7000");
    assert_eq!(d(-7, -3).to_text(), "-0.007");
    assert_eq!(d(12345, -2).to_text(), "123.45");
    assert_eq!(d(i64::MIN, 0).to_text(), "-9223372036854775808");
    assert_eq!(d(100, -2).to_text(), "1.00");
}
