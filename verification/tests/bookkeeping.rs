use framegraph::context::frame_graph::{FrameGraph, PassNode};
use framegraph::context::resource_manager::{BufferCreateInfo, ResourceHandle, ResourceManager, ResourceType};
use framegraph::profiling::{FrameSpans, GpuSpanManager, MAX_QUERIES};

#[test]
fn spans_take_consecutive_queries() {
    let mut frame: FrameSpans<&str> = FrameSpans::new();
    assert_eq!(frame.data.len(), MAX_QUERIES as usize);
    assert_eq!(frame.reset(), 1);
    let open = frame.new_gpu_span();
    let inner = frame.new_gpu_span();
    let inner_end = frame.close_gpu_span("inner", inner);
    let end = frame.close_gpu_span("outer", open);
    assert_eq!((open, inner, inner_end, end), (0, 1, 2, 3));
    let stamps = frame.flush(&vec![10, 20, 30, 40]);
    assert_eq!(stamps, vec![(20, 30), (10, 40)]);
    assert!(!frame.ready);
    assert_eq!(frame.reset(), 5);
    assert!(frame.active_spans.is_empty());
}

#[test]
fn frames_take_turns() {
    let mut m: GpuSpanManager<u8, ()> = GpuSpanManager::new(2, ());
    assert_eq!(m.next_frame_index(), 1);
    let (_, stamps, count) = m.reset(&vec![]);
    assert!(stamps.is_empty());
    assert_eq!((m.frame_index, count), (1, 1));
    let q = m.new_gpu_span();
    let e = m.close_gpu_span(7, q);
    assert_eq!((q, e), (0, 1));
    let (_, _, _) = m.reset(&vec![]);
    assert_eq!(m.frame_index, 0);
    let (spans, stamps, count) = m.reset(&vec![5, 9]);
    assert_eq!(spans.len(), 1);
    assert_eq!((spans[0].span, spans[0].start_query_id, spans[0].end_query_id), (7, 0, 1));
    assert_eq!(stamps, vec![(5, 9)]);
    assert_eq!((m.frame_index, count), (1, 3));
}

#[test]
fn handles_are_never_reused() {
    let mut m: ResourceManager<u32> = ResourceManager::new();
    let a = m.create_buffer_transient(&BufferCreateInfo { size: 64, usage: 0x10, sharing_mode: 0 });
    let b = m.create_buffer_persistent(ResourceType::Buffer(77), 5);
    let c = m.create_buffer_transient(&BufferCreateInfo { size: 8, usage: 0x10, sharing_mode: 0 });
    assert!(a == ResourceHandle::Transient(0));
    assert!(b == ResourceHandle::Persistent(1));
    assert!(c == ResourceHandle::Transient(2));
    assert!(a != c && ResourceHandle::Transient(1) != b);
    let resolved = m.resolve_resource(&b);
    assert!(resolved.resource == ResourceType::Buffer(77));
    assert_eq!(*m.buffer_allocation(&b), 5);
}

#[test]
fn frames_run_their_passes_last_added_first() {
    let mut g: FrameGraph<&str> = FrameGraph::new();
    g.start();
    g.add_node("shadow");
    g.add_node("main");
    g.add_node("ui");
    g.compile();
    assert_eq!(g.end(), vec!["ui", "main", "shadow"]);
    assert!(g.nodes.is_empty());
}

#[test]
fn a_pass_needs_its_pipeline_objects() {
    let mut b = PassNode::<u8>::builder().layout(1).pipeline(2).renderpass(3).outputs(vec![ResourceHandle::Persistent(4)]);
    b.fill_commands(9);
    let node = b.build().ok().unwrap();
    assert_eq!((node.layout, node.pipeline, node.renderpass, node.fill_callback), (1, 2, 3, 9));
    assert!(node.get_inputs().is_empty());
    assert_eq!(node.get_outputs().len(), 1);
}
