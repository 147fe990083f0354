use shape_elements::elements::ELLIPSE_PAD_PPM;
use shape_elements::elements::ShapeDescriptor;
use shape_elements::elements::ShapeFamily;
use shape_elements::elements::circle;
use shape_elements::elements::ellipse;
use shape_elements::elements::first_defined;
use shape_elements::elements::realize;
use shape_elements::elements::realize_into;
use shape_elements::elements::rect;
use shape_elements::elements::square;
use shape_elements::geom::Color;
use shape_elements::geom::Length;
use shape_elements::geom::Linear;
use shape_elements::geom::Paint;
use shape_elements::geom::Ratio;
use shape_elements::geom::Sides;
use shape_elements::layout::BackgroundShape;
use shape_elements::layout::Content;
use shape_elements::layout::Flow;
use shape_elements::layout::LayoutNode;

fn lin(abs: i64) -> Linear {
    Linear { abs, rel_ppm: 0 }
}

fn red() -> Color {
    Color { r: 255, g: 0, b: 0, a: 255 }
}

#[test]
fn rect_without_fill_is_fixed_over_stack() {
    let d = rect(Some(lin(120)), Some(lin(80)), None, None);
    let node = realize(d);
    let expected = LayoutNode::Fixed {
        width: Some(lin(120)),
        height: Some(lin(80)),
        child: Box::new(LayoutNode::Stack { content: Content::new(), aspect: None }),
    };
    assert_eq!(node, expected);
}

#[test]
fn rect_with_fill_has_rect_background_outermost() {
    let d = rect(Some(lin(10)), None, Some(red()), None);
    let node = realize(d);
    let expected = LayoutNode::Background {
        shape: BackgroundShape::Rect,
        fill: Paint::Color(red()),
        child: Box::new(LayoutNode::Fixed {
            width: Some(lin(10)),
            height: None,
            child: Box::new(LayoutNode::Stack { content: Content::new(), aspect: None }),
        }),
    };
    assert_eq!(node, expected);
}

#[test]
fn ellipse_pads_between_stack_and_fixed() {
    let d = ellipse(Some(lin(40)), Some(lin(20)), None, None);
    let node = realize(d);
    let pad = Linear { abs: 0, rel_ppm: ELLIPSE_PAD_PPM };
    let expected = LayoutNode::Fixed {
        width: Some(lin(40)),
        height: Some(lin(20)),
        child: Box::new(LayoutNode::Pad {
            padding: Sides { left: pad, top: pad, right: pad, bottom: pad },
            child: Box::new(LayoutNode::Stack { content: Content::new(), aspect: None }),
        }),
    };
    assert_eq!(node, expected);
    assert_eq!(ELLIPSE_PAD_PPM, 146447);
}

#[test]
fn ellipse_with_fill_has_ellipse_background_outermost() {
    let d = ellipse(None, None, Some(red()), None);
    let node = realize(d);
    match node {
        LayoutNode::Background { shape, fill, child } => {
            assert_eq!(shape, BackgroundShape::Ellipse);
            assert_eq!(fill, Paint::Color(red()));
            assert!(matches!(*child, LayoutNode::Fixed { .. }));
        }
        other => panic!("expected a background node, got {:?}", other),
    }
}

#[test]
fn square_length_and_width_resolve_identically() {
    let by_length = square(Some(Length { units: 33 }), None, None, None, None);
    let by_width = square(None, Some(lin(33)), None, None, None);
    assert_eq!(by_length, by_width);
    assert_eq!(by_length.width, Some(lin(33)));
    assert_eq!(by_length.height, None);
    assert_eq!(by_length.aspect, Some(Ratio { num: 1, den: 1 }));
    assert_eq!(by_length.family, ShapeFamily::Rectangular);
}

#[test]
fn square_ignores_height_when_width_present() {
    let d = square(None, Some(lin(5)), Some(lin(999)), None, None);
    assert_eq!(d.width, Some(lin(5)));
    assert_eq!(d.height, None);
    assert_eq!(d.aspect, Some(Ratio { num: 1, den: 1 }));
}

#[test]
fn square_reads_height_only_without_width() {
    let d = square(None, None, Some(lin(17)), None, None);
    assert_eq!(d.width, None);
    assert_eq!(d.height, Some(lin(17)));
}

#[test]
fn circle_radius_doubles_into_width() {
    let d = circle(Some(Length { units: 21 }), None, None, None, None);
    assert_eq!(d.width, Some(lin(42)));
    assert_eq!(d.height, None);
    assert_eq!(d.aspect, Some(Ratio { num: 1, den: 1 }));
    assert_eq!(d.family, ShapeFamily::Elliptical);
}

#[test]
fn circle_radius_takes_precedence_over_width_and_height() {
    let d = circle(Some(Length { units: 3 }), Some(lin(100)), Some(lin(200)), None, None);
    assert_eq!(d.width, Some(lin(6)));
    assert_eq!(d.height, None);
}

#[test]
fn circle_falls_back_to_width_then_height() {
    let d = circle(None, Some(lin(12)), Some(lin(34)), None, None);
    assert_eq!(d.width, Some(lin(12)));
    assert_eq!(d.height, None);
    let d = circle(None, None, Some(lin(34)), None, None);
    assert_eq!(d.width, None);
    assert_eq!(d.height, Some(lin(34)));
}

#[test]
fn omitted_body_equals_empty_content() {
    let omitted = rect(None, None, None, None);
    let empty = rect(None, None, None, Some(Content::new()));
    assert_eq!(omitted, empty);
    assert_eq!(realize(omitted), realize(empty));

    let omitted = circle(Some(Length { units: 2 }), None, None, Some(red()), None);
    let empty = circle(Some(Length { units: 2 }), None, None, Some(red()), Some(Content::new()));
    assert_eq!(omitted, empty);
    assert_eq!(realize(omitted), realize(empty));
}

#[test]
fn body_content_reaches_the_stack() {
    let body = Content { markup: vec![1, 2, 3] };
    let d = rect(None, None, None, Some(body));
    let node = realize(d);
    match node {
        LayoutNode::Fixed { child, .. } => match *child {
            LayoutNode::Stack { content, aspect } => {
                assert_eq!(content.markup, vec![1, 2, 3]);
                assert_eq!(aspect, None);
            }
            other => panic!("expected a stack, got {:?}", other),
        },
        other => panic!("expected a fixed node, got {:?}", other),
    }
}

#[test]
fn realize_into_pushes_in_call_order() {
    let mut flow = Flow::new();
    realize_into(&mut flow, rect(Some(lin(1)), None, None, None));
    realize_into(&mut flow, ellipse(None, Some(lin(2)), None, None));
    assert_eq!(flow.nodes.len(), 2);
    assert!(matches!(
        flow.nodes[0],
        LayoutNode::Fixed { width: Some(Linear { abs: 1, rel_ppm: 0 }), .. }
    ));
    assert!(matches!(
        flow.nodes[1],
        LayoutNode::Fixed { height: Some(Linear { abs: 2, rel_ppm: 0 }), .. }
    ));
}

#[test]
fn first_defined_picks_first_present_candidate() {
    assert_eq!(first_defined(&vec![None, Some(lin(4)), Some(lin(9))]), Some(lin(4)));
    assert_eq!(first_defined(&vec![Some(lin(7)), Some(lin(9))]), Some(lin(7)));
    assert_eq!(first_defined(&vec![None, None]), None);
    assert_eq!(first_defined(&vec![]), None);
}

#[test]
fn descriptor_fields_carry_through() {
    let d = ellipse(Some(lin(4)), Some(lin(6)), Some(red()), None);
    let expected = ShapeDescriptor {
        family: ShapeFamily::Elliptical,
        width: Some(lin(4)),
        height: Some(lin(6)),
        aspect: None,
        fill: Some(red()),
        body: Content::new(),
    };
    assert_eq!(d, expected);
}
