use yasb::config::BarEdge;
use yasb::geometry::{Monitor, Rect, edge_rectangle};

fn monitor() -> Monitor {
    Monitor { name: "m1".to_string(), x: 100, y: 50, width: 1920, height: 1080 }
}

#[test]
fn top_edge_rectangle() {
    let r = edge_rectangle(&monitor(), BarEdge::Top, 40);
    assert_eq!(r, Rect { x: 100, y: 50, width: 1920, height: 40 });
}

#[test]
fn bottom_edge_rectangle() {
    let r = edge_rectangle(&monitor(), BarEdge::Bottom, 40);
    assert_eq!(r, Rect { x: 100, y: 1090, width: 1920, height: 40 });
}

#[test]
fn left_edge_rectangle() {
    let r = edge_rectangle(&monitor(), BarEdge::Left, 40);
    assert_eq!(r, Rect { x: 100, y: 50, width: 40, height: 1080 });
}

#[test]
fn right_edge_rectangle() {
    let r = edge_rectangle(&monitor(), BarEdge::Right, 40);
    assert_eq!(r, Rect { x: 1980, y: 50, width: 40, height: 1080 });
}

#[test]
fn full_thickness_edge_rectangle() {
    let r = edge_rectangle(&monitor(), BarEdge::Top, 1080);
    assert_eq!(r, Rect { x: 100, y: 50, width: 1920, height: 1080 });
}

#[test]
fn negative_origin_edge_rectangle() {
    let m = Monitor { name: "m2".to_string(), x: -1920, y: -200, width: 1920, height: 1080 };
    let r = edge_rectangle(&m, BarEdge::Bottom, 30);
    assert_eq!(r, Rect { x: -1920, y: 850, width: 1920, height: 30 });
}
