use compositing::area::{Area, HitTestItem, ViewportConstraints, MAX_ZOOM, MIN_ZOOM};
use compositing::effects::{
    CompositorEvent, ConstellationMsg, CursorKind, Effect, EventResult, MouseEventType,
    ScrollRequest, TouchEventType, TouchId, Transaction, UntrustedNodeAddress, WindowSizeData,
    WindowSizeType,
};
use compositing::msg::{
    CompositionPipeline, DocumentId, PipelineId, SendableFrameTree, TopLevelBrowsingContextId,
    WebRenderPipelineId,
};
use compositing::scroll::ScrollLocation;
use compositing::touch::TouchState;
use compositing::units::{
    Fixed, IntPoint, Point2D, Size2D, UintPoint, UintRect, UintSize, Vector2D, UNIT,
};
use compositing::windowing::{AreaCoordinates, EmbedderCoordinates, MouseButton, MouseWindowEvent};

fn fx(whole: i64) -> Fixed {
    Fixed::new(whole * UNIT)
}

fn delta(x: i64, y: i64) -> ScrollLocation {
    ScrollLocation::Delta(Vector2D::new(fx(x), fx(y)))
}

fn doc() -> DocumentId {
    DocumentId { namespace: 1, id: 7 }
}

fn embedder(hidpi_raw: i64) -> EmbedderCoordinates {
    let size = UintSize::new(800, 600);
    EmbedderCoordinates {
        hidpi_factor: Fixed::new(hidpi_raw),
        screen: UintSize::new(1920, 1080),
        screen_avail: UintSize::new(1920, 1040),
        window_size: size,
        window_position: IntPoint::new(10, 20),
        framebuffer: size,
        viewport: UintRect { origin: UintPoint { x: 0, y: 0 }, size },
    }
}

fn coordinates() -> AreaCoordinates {
    AreaCoordinates {
        rect: UintRect { origin: UintPoint { x: 0, y: 0 }, size: UintSize::new(800, 600) },
    }
}

fn area(hidpi_raw: i64) -> Area {
    let mut effects = Vec::new();
    Area::new(coordinates(), embedder(hidpi_raw), doc(), &mut effects)
}

fn pipeline(index: u32) -> CompositionPipeline {
    CompositionPipeline {
        id: PipelineId { namespace_id: 0, index },
        top_level_browsing_context_id: TopLevelBrowsingContextId { namespace_id: 0, index: 100 },
    }
}

fn hit(index: u32, cursor: Option<CursorKind>) -> HitTestItem {
    HitTestItem {
        pipeline: PipelineId { namespace_id: 0, index },
        node: UntrustedNodeAddress(0xbeef),
        cursor,
        point_in_viewport: Point2D::new(fx(3), fx(4)),
        point_relative_to_item: Point2D::new(fx(1), fx(2)),
    }
}

fn window_size(
    hidpi_raw: i64,
    dppx_raw: i64,
    viewport: (i64, i64),
    top: Option<TopLevelBrowsingContextId>,
    kind: WindowSizeType,
) -> Vec<Effect> {
    vec![
        Effect::SetWindowParameters {
            document: doc(),
            framebuffer: UintSize::new(800, 600),
            coordinates: coordinates().rect,
            hidpi_factor: Fixed::new(hidpi_raw),
        },
        Effect::Constellation(ConstellationMsg::WindowSize(
            top,
            WindowSizeData {
                initial_viewport: Size2D {
                    width: Fixed::new(viewport.0),
                    height: Fixed::new(viewport.1),
                },
                device_pixel_ratio: Fixed::new(dppx_raw),
            },
            kind,
        )),
    ]
}

fn scroll_transaction(location: ScrollLocation, cursor: Point2D, pinch: Option<Fixed>) -> Effect {
    Effect::SendTransaction(
        doc(),
        Transaction {
            root_pipeline: None,
            scroll: Some(ScrollRequest { location, cursor }),
            pinch_zoom: pinch,
            page_zoom: None,
            generate_frame: true,
        },
    )
}

#[test]
fn a_new_area_reports_its_size() {
    let mut effects = Vec::new();
    let area = Area::new(coordinates(), embedder(2 * UNIT), doc(), &mut effects);
    assert_eq!(
        effects,
        window_size(2 * UNIT, 2 * UNIT, (400 * UNIT, 300 * UNIT), None, WindowSizeType::Initial)
    );
    assert_eq!(area.get_id(), doc());
    assert_eq!(area.root_pipeline(), None);
    assert_eq!(area.page_zoom(), Fixed::one());
    assert_eq!(area.pinch_zoom_level(), Fixed::one());
    assert_eq!(area.scale(), fx(2));
    assert!(!area.scroll_in_progress());
    assert!(!area.waiting_for_results_of_scroll());
    assert_eq!(area.pending_events(), 0);
}

#[test]
fn averaged_scroll_is_scaled_into_content_space() {
    let mut area = area(2 * UNIT);
    area.on_scroll_event(delta(30, 0), IntPoint::new(100, 50), TouchEventType::Move);
    area.on_scroll_event(delta(10, 0), IntPoint::new(0, 0), TouchEventType::Move);
    area.on_scroll_event(delta(20, 0), IntPoint::new(0, 0), TouchEventType::Move);
    assert_eq!(area.pending_events(), 3);
    let mut effects = Vec::new();
    assert!(area.process_pending_scroll_events_if_needed(&mut effects));
    assert_eq!(
        effects,
        vec![
            scroll_transaction(delta(10, 0), Point2D::new(fx(50), fx(25)), None),
            Effect::QueryScrollStates(doc()),
        ]
    );
    assert_eq!(area.pending_events(), 0);
    assert!(area.waiting_for_results_of_scroll());
}

#[test]
fn a_second_flush_without_acknowledgement_sends_nothing() {
    let mut area = area(UNIT);
    area.on_scroll_event(delta(5, 5), IntPoint::new(1, 1), TouchEventType::Move);
    let mut effects = Vec::new();
    assert!(area.process_pending_scroll_events_if_needed(&mut effects));
    assert_eq!(effects.len(), 2);
    area.on_scroll_event(delta(7, 7), IntPoint::new(1, 1), TouchEventType::Move);
    let mut again = Vec::new();
    assert!(!area.process_pending_scroll_events_if_needed(&mut again));
    assert_eq!(again, Vec::new());
    assert_eq!(area.pending_events(), 1);
    assert!(area.waiting_for_results_of_scroll());
    area.composite_done();
    assert!(!area.waiting_for_results_of_scroll());
    assert!(area.process_pending_scroll_events_if_needed(&mut again));
    assert_eq!(
        again,
        vec![
            scroll_transaction(delta(7, 7), Point2D::new(fx(1), fx(1)), None),
            Effect::QueryScrollStates(doc()),
        ]
    );
}

#[test]
fn a_flush_with_nothing_pending_does_nothing() {
    let mut area = area(UNIT);
    let mut effects = Vec::new();
    assert!(!area.process_pending_scroll_events_if_needed(&mut effects));
    assert_eq!(effects, Vec::new());
    assert!(!area.waiting_for_results_of_scroll());
}

#[test]
fn a_jump_is_sent_unscaled() {
    let mut area = area(2 * UNIT);
    area.on_scroll_event(delta(30, 0), IntPoint::new(8, 8), TouchEventType::Move);
    area.on_scroll_event(ScrollLocation::End, IntPoint::new(20, 40), TouchEventType::Move);
    area.on_scroll_event(delta(10, 0), IntPoint::new(8, 8), TouchEventType::Move);
    let mut effects = Vec::new();
    assert!(area.process_pending_scroll_events_if_needed(&mut effects));
    assert_eq!(
        effects[0],
        scroll_transaction(ScrollLocation::End, Point2D::new(fx(10), fx(20)), None)
    );
}

#[test]
fn scroll_phases_track_whether_a_scroll_is_in_progress() {
    let mut area = area(UNIT);
    area.on_scroll_event(delta(1, 1), IntPoint::new(0, 0), TouchEventType::Move);
    assert!(!area.scroll_in_progress());
    area.on_scroll_event(delta(1, 1), IntPoint::new(0, 0), TouchEventType::Down);
    assert!(area.scroll_in_progress());
    area.on_scroll_event(delta(1, 1), IntPoint::new(0, 0), TouchEventType::Move);
    assert!(area.scroll_in_progress());
    area.on_scroll_event(delta(1, 1), IntPoint::new(0, 0), TouchEventType::Up);
    assert!(!area.scroll_in_progress());
    area.on_scroll_event(delta(1, 1), IntPoint::new(0, 0), TouchEventType::Down);
    area.on_scroll_event(delta(1, 1), IntPoint::new(0, 0), TouchEventType::Cancel);
    assert!(!area.scroll_in_progress());
    assert_eq!(area.pending_events(), 6);
}

#[test]
fn page_zoom_is_clamped_to_its_limits() {
    let mut area = area(UNIT);
    let mut effects = Vec::new();
    area.on_zoom_window_event(fx(100), &mut effects);
    assert_eq!(area.page_zoom(), Fixed::new(MAX_ZOOM));
    assert_eq!(area.page_zoom(), fx(8));
    area.on_zoom_window_event(Fixed::new(1), &mut effects);
    assert_eq!(area.page_zoom(), Fixed::new(MIN_ZOOM));
    assert_eq!(area.page_zoom(), Fixed::new(100_000));
    area.on_zoom_window_event(fx(-5), &mut effects);
    assert_eq!(area.page_zoom(), Fixed::new(MIN_ZOOM));
    area.on_zoom_window_event(Fixed::new(i64::MAX), &mut effects);
    assert_eq!(area.page_zoom(), Fixed::new(MAX_ZOOM));
    area.on_zoom_window_event(Fixed::new(i64::MIN), &mut effects);
    assert_eq!(area.page_zoom(), Fixed::new(MIN_ZOOM));
}

#[test]
fn page_zoom_changes_the_scale_and_is_reported() {
    let mut area = area(2 * UNIT);
    let mut effects = Vec::new();
    area.on_zoom_window_event(Fixed::new(1_500_000), &mut effects);
    assert_eq!(area.page_zoom(), Fixed::new(1_500_000));
    assert_eq!(area.scale(), fx(3));
    let mut expected = window_size(
        2 * UNIT,
        3 * UNIT,
        (266_666_666, 200 * UNIT),
        None,
        WindowSizeType::Resize,
    );
    expected.push(Effect::SendTransaction(
        doc(),
        Transaction {
            root_pipeline: None,
            scroll: None,
            pinch_zoom: None,
            page_zoom: Some(Fixed::new(1_500_000)),
            generate_frame: false,
        },
    ));
    assert_eq!(effects, expected);
}

#[test]
fn page_zoom_reset_goes_back_to_one() {
    let mut area = area(2 * UNIT);
    let mut effects = Vec::new();
    area.on_zoom_window_event(fx(4), &mut effects);
    assert_eq!(area.scale(), fx(8));
    effects.clear();
    area.on_zoom_reset_window_event(&mut effects);
    assert_eq!(area.page_zoom(), Fixed::one());
    assert_eq!(area.scale(), fx(2));
    assert_eq!(effects.len(), 3);
    assert_eq!(
        effects[2],
        Effect::SendTransaction(
            doc(),
            Transaction {
                root_pipeline: None,
                scroll: None,
                pinch_zoom: None,
                page_zoom: Some(Fixed::one()),
                generate_frame: false,
            },
        )
    );
}

#[test]
fn pinch_zoom_is_applied_at_the_flush_and_clamped() {
    let mut area = area(UNIT);
    area.constrain_viewport(ViewportConstraints {
        initial_zoom: Fixed::one(),
        min_zoom: Some(Fixed::new(500_000)),
        max_zoom: Some(fx(3)),
    });
    area.on_pinch_zoom_window_event(fx(2));
    area.on_pinch_zoom_window_event(fx(2));
    assert_eq!(area.pinch_zoom_level(), Fixed::one());
    let mut effects = Vec::new();
    assert!(area.process_pending_scroll_events_if_needed(&mut effects));
    assert_eq!(area.pinch_zoom_level(), fx(3));
    assert_eq!(
        effects[0],
        scroll_transaction(delta(0, 0), Point2D::new(fx(-1), fx(-1)), Some(fx(3)))
    );
    area.composite_done();
    area.on_pinch_zoom_window_event(Fixed::new(1));
    assert!(area.process_pending_scroll_events_if_needed(&mut effects));
    assert_eq!(area.pinch_zoom_level(), Fixed::new(500_000));
}

#[test]
fn pinch_zoom_stays_within_limits_for_any_run_of_factors() {
    let factors = [
        i64::MAX, 1, 0, -1, i64::MIN, 2 * UNIT, UNIT / 2, 1_000_001, 999_999, 50 * UNIT, 7,
    ];
    let mut area = area(UNIT);
    area.constrain_viewport(ViewportConstraints {
        initial_zoom: fx(1),
        min_zoom: Some(Fixed::new(250_000)),
        max_zoom: Some(fx(4)),
    });
    let mut effects = Vec::new();
    for (i, first) in factors.iter().enumerate() {
        for second in factors.iter().skip(i) {
            area.on_pinch_zoom_window_event(Fixed::new(*first));
            area.on_pinch_zoom_window_event(Fixed::new(*second));
            area.process_pending_scroll_events_if_needed(&mut effects);
            area.composite_done();
            let zoom = area.pinch_zoom_level().raw;
            assert!(250_000 <= zoom && zoom <= 4 * UNIT);
        }
    }
}

#[test]
fn a_magnification_of_one_leaves_the_pinch_zoom_alone() {
    let mut area = area(UNIT);
    area.constrain_viewport(ViewportConstraints {
        initial_zoom: Fixed::new(1_500_000),
        min_zoom: Some(fx(1)),
        max_zoom: Some(fx(2)),
    });
    assert_eq!(area.pinch_zoom_level(), Fixed::new(1_500_000));
    area.on_pinch_zoom_window_event(Fixed::one());
    let mut effects = Vec::new();
    area.process_pending_scroll_events_if_needed(&mut effects);
    assert_eq!(area.pinch_zoom_level(), Fixed::new(1_500_000));
    assert_eq!(
        effects[0],
        scroll_transaction(delta(0, 0), Point2D::new(fx(-1), fx(-1)), None)
    );
}

#[test]
fn the_initial_pinch_zoom_is_brought_within_the_new_limits() {
    let limits = |initial: Fixed, min: Option<Fixed>, max: Option<Fixed>| {
        let mut area = area(UNIT);
        area.constrain_viewport(ViewportConstraints {
            initial_zoom: initial,
            min_zoom: min,
            max_zoom: max,
        });
        area
    };
    // Above the upper limit, and still there after a pinch by one.
    let mut above = limits(fx(5), Some(fx(1)), Some(fx(2)));
    assert_eq!(above.pinch_zoom_level(), fx(2));
    above.on_pinch_zoom_window_event(Fixed::one());
    let mut effects = Vec::new();
    above.process_pending_scroll_events_if_needed(&mut effects);
    assert_eq!(above.pinch_zoom_level(), fx(2));
    // Below the lower limit.
    assert_eq!(limits(Fixed::new(250_000), Some(fx(1)), Some(fx(2))).pinch_zoom_level(), fx(1));
    assert_eq!(limits(Fixed::new(250_000), Some(fx(1)), None).pinch_zoom_level(), fx(1));
    // Within the limits, or without a limit on its side.
    assert_eq!(limits(fx(2), Some(fx(1)), Some(fx(2))).pinch_zoom_level(), fx(2));
    assert_eq!(limits(fx(1), Some(fx(1)), Some(fx(2))).pinch_zoom_level(), fx(1));
    assert_eq!(limits(fx(9), Some(fx(1)), None).pinch_zoom_level(), fx(9));
    assert_eq!(limits(Fixed::new(1), None, Some(fx(2))).pinch_zoom_level(), Fixed::new(1));
    assert_eq!(limits(fx(9), None, Some(fx(2))).pinch_zoom_level(), fx(2));
    assert_eq!(limits(fx(9), None, None).pinch_zoom_level(), fx(9));
    // The limits are taken over with the zoom, and so is the scale.
    let mut area = limits(fx(9), Some(fx(3)), Some(fx(4)));
    assert_eq!(area.pinch_zoom_level(), fx(4));
    assert_eq!(area.scale(), fx(1));
    area.on_pinch_zoom_window_event(Fixed::new(1));
    area.process_pending_scroll_events_if_needed(&mut effects);
    assert_eq!(area.pinch_zoom_level(), fx(3));
}

#[test]
fn pinch_zoom_without_limits_is_not_clamped() {
    let mut area = area(UNIT);
    area.on_pinch_zoom_window_event(fx(1000));
    let mut effects = Vec::new();
    area.process_pending_scroll_events_if_needed(&mut effects);
    assert_eq!(area.pinch_zoom_level(), fx(1000));
}

#[test]
fn binding_a_frame_tree_sets_the_root_and_reports() {
    let mut area = area(UNIT);
    let tree = SendableFrameTree { pipeline: pipeline(5), children: Vec::new() };
    let mut effects = Vec::new();
    area.set_frame_tree(&tree, &mut effects);
    assert_eq!(area.root_pipeline(), Some(pipeline(5)));
    let mut expected = vec![Effect::SendTransaction(
        doc(),
        Transaction {
            root_pipeline: Some(WebRenderPipelineId(0, 5)),
            scroll: None,
            pinch_zoom: None,
            page_zoom: None,
            generate_frame: true,
        },
    )];
    expected.extend(window_size(
        UNIT,
        UNIT,
        (800 * UNIT, 600 * UNIT),
        Some(TopLevelBrowsingContextId { namespace_id: 0, index: 100 }),
        WindowSizeType::Initial,
    ));
    expected.push(Effect::QueryScrollStates(doc()));
    assert_eq!(effects, expected);
}

#[test]
fn a_resize_follows_the_new_density_and_always_reports() {
    let mut area = area(UNIT);
    let mut effects = Vec::new();
    area.on_resize_window_event(embedder(3 * UNIT), &mut effects);
    assert_eq!(area.scale(), fx(3));
    assert_eq!(
        effects,
        window_size(
            3 * UNIT,
            3 * UNIT,
            (266_666_666, 200 * UNIT),
            None,
            WindowSizeType::Resize
        )
    );
    effects.clear();
    area.on_resize_window_event(embedder(3 * UNIT), &mut effects);
    assert_eq!(effects.len(), 2);
}

#[test]
fn hit_test_points_are_scaled_by_zoom_and_density() {
    let mut area = area(2 * UNIT);
    assert_eq!(
        area.hit_test_at_point(Point2D::new(fx(100), fx(50))),
        Point2D::new(fx(50), fx(25))
    );
    let mut effects = Vec::new();
    area.on_zoom_window_event(fx(2), &mut effects);
    assert_eq!(
        area.hit_test_at_point(Point2D::new(fx(100), fx(50))),
        Point2D::new(fx(25), Fixed::new(12_500_000))
    );
}

#[test]
fn mouse_button_events_go_to_the_pipeline_that_was_hit() {
    let area = area(UNIT);
    let p = Point2D::new(fx(9), fx(9));
    let cases = [
        (MouseWindowEvent::Click(MouseButton::Right, p), MouseEventType::Click, MouseButton::Right),
        (
            MouseWindowEvent::MouseDown(MouseButton::Left, p),
            MouseEventType::MouseDown,
            MouseButton::Left,
        ),
        (
            MouseWindowEvent::MouseUp(MouseButton::Middle, p),
            MouseEventType::MouseUp,
            MouseButton::Middle,
        ),
    ];
    for (event, kind, button) in cases.iter() {
        let mut effects = Vec::new();
        area.dispatch_mouse_window_event_class(*event, Some(hit(4, None)), &mut effects);
        assert_eq!(
            effects,
            vec![Effect::Constellation(ConstellationMsg::ForwardEvent(
                PipelineId { namespace_id: 0, index: 4 },
                CompositorEvent::MouseButtonEvent(
                    *kind,
                    *button,
                    Point2D::new(fx(3), fx(4)),
                    Some(UntrustedNodeAddress(0xbeef)),
                    Some(Point2D::new(fx(1), fx(2))),
                ),
            ))]
        );
        let mut none = Vec::new();
        area.dispatch_mouse_window_event_class(*event, None, &mut none);
        assert_eq!(none, Vec::new());
    }
}

#[test]
fn mouse_moves_need_a_root_and_set_the_cursor() {
    let mut area = area(UNIT);
    let mut effects = Vec::new();
    area.dispatch_mouse_window_move_event_class(Some(hit(4, Some(CursorKind(2)))), &mut effects);
    assert_eq!(effects, Vec::new());
    let tree = SendableFrameTree { pipeline: pipeline(5), children: Vec::new() };
    area.set_frame_tree(&tree, &mut effects);
    effects.clear();
    area.dispatch_mouse_window_move_event_class(Some(hit(4, Some(CursorKind(2)))), &mut effects);
    let forward = Effect::Constellation(ConstellationMsg::ForwardEvent(
        PipelineId { namespace_id: 0, index: 4 },
        CompositorEvent::MouseMoveEvent(
            Some(Point2D::new(fx(3), fx(4))),
            Some(UntrustedNodeAddress(0xbeef)),
        ),
    ));
    assert_eq!(
        effects,
        vec![forward, Effect::Constellation(ConstellationMsg::SetCursor(CursorKind(2)))]
    );
    effects.clear();
    area.dispatch_mouse_window_move_event_class(Some(hit(4, None)), &mut effects);
    assert_eq!(effects, vec![forward]);
    effects.clear();
    area.dispatch_mouse_window_move_event_class(None, &mut effects);
    assert_eq!(effects, Vec::new());
}

fn touch(kind: TouchEventType, id: i32) -> Effect {
    Effect::Constellation(ConstellationMsg::ForwardEvent(
        PipelineId { namespace_id: 0, index: 4 },
        CompositorEvent::TouchEvent(
            kind,
            TouchId(id),
            Point2D::new(fx(3), fx(4)),
            Some(UntrustedNodeAddress(0xbeef)),
        ),
    ))
}

#[test]
fn touch_down_and_cancel_go_to_content() {
    let mut area = area(UNIT);
    let p = Point2D::new(fx(1), fx(1));
    let mut effects = Vec::new();
    area.on_touch_event(TouchEventType::Down, TouchId(3), p, Some(hit(4, None)), &mut effects);
    assert_eq!(area.touch_state(), TouchState::WaitingForScript);
    area.on_touch_event(TouchEventType::Cancel, TouchId(3), p, Some(hit(4, None)), &mut effects);
    assert_eq!(area.touch_state(), TouchState::Nothing);
    assert_eq!(effects, vec![touch(TouchEventType::Down, 3), touch(TouchEventType::Cancel, 3)]);
    effects.clear();
    area.on_touch_down(TouchId(3), p, None, &mut effects);
    assert_eq!(effects, Vec::new());
}

#[test]
fn nothing_is_done_by_default_before_content_answers() {
    let mut area = area(UNIT);
    let mut effects = Vec::new();
    area.on_touch_down(TouchId(1), Point2D::new(fx(0), fx(0)), Some(hit(4, None)), &mut effects);
    effects.clear();
    area.on_touch_move(TouchId(1), Point2D::new(fx(90), fx(0)), Some(hit(4, None)), &mut effects);
    assert_eq!(effects, Vec::new());
    assert_eq!(area.pending_events(), 0);
    area.on_touch_up(TouchId(1), Point2D::new(fx(90), fx(0)), Some(hit(4, None)), &mut effects);
    assert_eq!(effects, vec![touch(TouchEventType::Up, 1)]);
    assert_eq!(area.touch_state(), TouchState::Nothing);
}

#[test]
fn a_finger_that_leaves_its_place_pans() {
    let mut area = area(UNIT);
    let mut effects = Vec::new();
    area.on_touch_down(TouchId(1), Point2D::new(fx(10), fx(10)), Some(hit(4, None)), &mut effects);
    area.on_touch_event_processed(EventResult::DefaultAllowed);
    assert_eq!(area.touch_state(), TouchState::Touching);
    effects.clear();

    // Twenty pixels are not more than the threshold.
    area.on_touch_move(TouchId(1), Point2D::new(fx(30), fx(-10)), Some(hit(4, None)), &mut effects);
    assert_eq!(area.touch_state(), TouchState::Touching);
    assert_eq!(area.pending_events(), 0);

    // The distance counts from where the finger came down.
    let moved = Point2D::new(Fixed::new(30_900_000), Fixed::new(15_000_000));
    area.on_touch_move(TouchId(1), moved, Some(hit(4, None)), &mut effects);
    assert_eq!(area.touch_state(), TouchState::Panning);
    assert_eq!(area.pending_events(), 1);
    assert_eq!(effects, Vec::new());
    area.process_pending_scroll_events_if_needed(&mut effects);
    assert_eq!(
        effects[0],
        scroll_transaction(
            ScrollLocation::Delta(Vector2D::new(Fixed::new(20_900_000), fx(5))),
            Point2D::new(fx(30), fx(15)),
            None
        )
    );
    area.composite_done();
    effects.clear();

    // From then on every move scrolls by what the finger moved.
    area.on_touch_move(TouchId(1), Point2D::new(fx(30), fx(15)), Some(hit(4, None)), &mut effects);
    area.process_pending_scroll_events_if_needed(&mut effects);
    assert_eq!(
        effects[0],
        scroll_transaction(
            ScrollLocation::Delta(Vector2D::new(Fixed::new(-900_000), fx(0))),
            Point2D::new(fx(30), fx(15)),
            None
        )
    );
    effects.clear();
    area.on_touch_up(TouchId(1), Point2D::new(fx(30), fx(15)), Some(hit(4, None)), &mut effects);
    assert_eq!(effects, vec![touch(TouchEventType::Up, 1)]);
    assert_eq!(area.touch_state(), TouchState::Nothing);
}

#[test]
fn two_fingers_pinch() {
    let mut area = area(UNIT);
    let mut effects = Vec::new();
    area.on_touch_down(TouchId(1), Point2D::new(fx(0), fx(0)), None, &mut effects);
    area.on_touch_event_processed(EventResult::DefaultAllowed);
    area.on_touch_down(TouchId(2), Point2D::new(fx(100), fx(0)), None, &mut effects);
    assert_eq!(area.touch_state(), TouchState::Pinching);
    area.on_touch_move(TouchId(2), Point2D::new(fx(200), fx(0)), None, &mut effects);
    assert_eq!(area.pending_events(), 1);
    area.process_pending_scroll_events_if_needed(&mut effects);
    // The fingers are twice as far apart, and the point between them
    // stays where it was.
    assert_eq!(
        effects[0],
        scroll_transaction(delta(0, 0), Point2D::new(fx(-1), fx(-1)), Some(fx(2)))
    );
    assert_eq!(area.pinch_zoom_level(), fx(2));
    area.composite_done();
    effects.clear();

    area.on_touch_move(TouchId(1), Point2D::new(fx(0), fx(150)), None, &mut effects);
    area.process_pending_scroll_events_if_needed(&mut effects);
    // The distance goes from 200 to 250, and the centre from (100, 0)
    // to (100, 75): the zoom goes from 2 to 2.5.
    assert_eq!(
        effects[0],
        scroll_transaction(
            ScrollLocation::Delta(Vector2D::new(fx(-25), fx(75))),
            Point2D::new(fx(-1), fx(-1)),
            Some(Fixed::new(2_500_000))
        )
    );
    assert_eq!(area.pinch_zoom_level(), Fixed::new(2_500_000));
    area.on_touch_up(TouchId(2), Point2D::new(fx(200), fx(0)), None, &mut effects);
    assert_eq!(area.touch_state(), TouchState::Panning);
    area.on_touch_up(TouchId(1), Point2D::new(fx(0), fx(150)), None, &mut effects);
    assert_eq!(area.touch_state(), TouchState::Nothing);
}

#[test]
fn a_sequence_that_content_handles_goes_to_content() {
    let mut area = area(UNIT);
    let mut effects = Vec::new();
    let p = Point2D::new(fx(0), fx(0));
    area.on_touch_down(TouchId(1), p, Some(hit(4, None)), &mut effects);
    area.on_touch_event_processed(EventResult::DefaultPrevented);
    assert_eq!(area.touch_state(), TouchState::DefaultPrevented);
    effects.clear();
    area.on_touch_move(TouchId(1), Point2D::new(fx(90), fx(0)), Some(hit(4, None)), &mut effects);
    assert_eq!(effects, vec![touch(TouchEventType::Move, 1)]);
    assert_eq!(area.pending_events(), 0);
    effects.clear();
    area.on_touch_up(TouchId(1), Point2D::new(fx(90), fx(0)), Some(hit(4, None)), &mut effects);
    assert_eq!(effects, vec![touch(TouchEventType::Up, 1)]);
    assert_eq!(area.touch_state(), TouchState::Nothing);
}

#[test]
fn a_tap_becomes_a_full_click() {
    let mut area = area(UNIT);
    let tree = SendableFrameTree { pipeline: pipeline(5), children: Vec::new() };
    let mut effects = Vec::new();
    area.set_frame_tree(&tree, &mut effects);
    let p = Point2D::new(fx(1), fx(1));
    area.on_touch_down(TouchId(0), p, Some(hit(4, None)), &mut effects);
    area.on_touch_event_processed(EventResult::DefaultAllowed);
    effects.clear();
    area.on_touch_up(TouchId(0), p, Some(hit(4, None)), &mut effects);
    let button = |kind: MouseEventType| {
        Effect::Constellation(ConstellationMsg::ForwardEvent(
            PipelineId { namespace_id: 0, index: 4 },
            CompositorEvent::MouseButtonEvent(
                kind,
                MouseButton::Left,
                Point2D::new(fx(3), fx(4)),
                Some(UntrustedNodeAddress(0xbeef)),
                Some(Point2D::new(fx(1), fx(2))),
            ),
        ))
    };
    assert_eq!(
        effects,
        vec![
            touch(TouchEventType::Up, 0),
            Effect::Constellation(ConstellationMsg::ForwardEvent(
                PipelineId { namespace_id: 0, index: 4 },
                CompositorEvent::MouseMoveEvent(
                    Some(Point2D::new(fx(3), fx(4))),
                    Some(UntrustedNodeAddress(0xbeef)),
                ),
            )),
            button(MouseEventType::MouseDown),
            button(MouseEventType::MouseUp),
            button(MouseEventType::Click),
        ]
    );
    assert_eq!(area.touch_state(), TouchState::Nothing);
    effects.clear();
    area.on_touch_up(TouchId(0), p, Some(hit(4, None)), &mut effects);
    assert_eq!(effects, vec![touch(TouchEventType::Up, 0)]);
}

#[test]
fn a_frame_can_be_asked_for() {
    let area = area(UNIT);
    let mut effects = Vec::new();
    area.generate_frame(&mut effects);
    assert_eq!(
        effects,
        vec![Effect::SendTransaction(
            doc(),
            Transaction {
                root_pipeline: None,
                scroll: None,
                pinch_zoom: None,
                page_zoom: None,
                generate_frame: true,
            },
        )]
    );
}

#[test]
fn pipeline_identifiers_convert_to_the_backend_and_back() {
    let id = PipelineId { namespace_id: 3, index: 9 };
    assert_eq!(id.to_webrender(), WebRenderPipelineId(3, 9));
    assert_eq!(PipelineId::from_webrender(WebRenderPipelineId(3, 9)), id);
}
