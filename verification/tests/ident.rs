use simple_cad::ident::{Side, Vertex};

#[test]
fn sides_are_read_from_their_names() {
    assert_eq!(Side::from_name("AB"), Some(Side::AB));
    assert_eq!(Side::from_name("BC"), Some(Side::BC));
    assert_eq!(Side::from_name("CD"), Some(Side::CD));
    assert_eq!(Side::from_name("DA"), Some(Side::DA));
}

#[test]
fn other_texts_name_no_side() {
    for text in ["", "A", "ab", "BA", "AC", "ABC", "AB ", " AB", "DA\n", "ÄB", "A\u{0301}"].iter() {
        assert_eq!(Side::from_name(text), None, "{:?}", text);
    }
}

#[test]
fn names_and_indices_go_both_ways() {
    let sides = [Side::AB, Side::BC, Side::CD, Side::DA];
    for (i, s) in sides.iter().enumerate() {
        assert_eq!(s.index(), i);
        assert_eq!(Side::from_index(i), Some(*s));
        assert_eq!(Side::from_name(s.name()), Some(*s));
    }
    assert_eq!(Side::from_index(4), None);
    assert_eq!(Side::AB.name(), "AB");
    assert_eq!(Side::DA.name(), "DA");
    let vertices = [Vertex::A, Vertex::B, Vertex::C, Vertex::D];
    for (i, v) in vertices.iter().enumerate() {
        assert_eq!(v.index(), i);
        assert_eq!(Vertex::from_index(i), Some(*v));
    }
    assert_eq!(Vertex::from_index(4), None);
}

#[test]
fn sides_join_neighbouring_vertices() {
    assert_eq!(Side::AB.endpoints(), (Vertex::A, Vertex::B));
    assert_eq!(Side::BC.endpoints(), (Vertex::B, Vertex::C));
    assert_eq!(Side::CD.endpoints(), (Vertex::C, Vertex::D));
    assert_eq!(Side::DA.endpoints(), (Vertex::D, Vertex::A));
    for v in [Vertex::A, Vertex::B, Vertex::C, Vertex::D].iter() {
        assert_eq!(v.next().prev(), *v);
        assert_eq!(v.side_out().endpoints().0, *v);
        assert_eq!(v.side_in().endpoints().1, *v);
        assert_eq!(v.next().index(), (v.index() + 1) % 4);
    }
    assert_eq!(Side::AB.opposite(), Side::CD);
    assert_eq!(Side::BC.opposite(), Side::DA);
    assert_eq!(Side::CD.opposite(), Side::AB);
    assert_eq!(Side::DA.opposite(), Side::BC);
}
