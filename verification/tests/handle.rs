use gfx_core::handle::{
    order_by_address, Buffer, Manager, Producer, RawBuffer, Resources,
};
use gfx_core::info::{
    BufferInfo, PipelineInfo, ProgramInfo, SamplerInfo, SurfaceInfo, TextureInfo,
};
use std::cmp::Ordering;

#[derive(Clone, Debug, Hash, PartialEq, Eq)]
enum TestResources {}

impl Resources for TestResources {
    type Buffer = u32;
    type ArrayBuffer = u32;
    type Shader = u32;
    type Program = u32;
    type PipelineState = u32;
    type FrameBuffer = u32;
    type Surface = u32;
    type Texture = u32;
    type Sampler = u32;
    type Fence = u32;
}

type R = TestResources;

fn buffer_info(size: usize) -> BufferInfo {
    BufferInfo { size, stride: 4 }
}

fn program_info() -> ProgramInfo {
    ProgramInfo { vertex_attributes: 2, constant_buffers: 1, textures: 3, samplers: 1, outputs: 1 }
}

#[derive(Default, Debug)]
struct Deleted {
    buffers: Vec<u32>,
    array_buffers: Vec<u32>,
    shaders: Vec<u32>,
    programs: Vec<u32>,
    pipeline_states: Vec<u32>,
    frame_buffers: Vec<u32>,
    surfaces: Vec<u32>,
    textures: Vec<u32>,
    samplers: Vec<u32>,
    fences: Vec<u32>,
}

fn clean(m: &mut Manager<R>) -> Deleted {
    let mut d = Deleted::default();
    m.clean_with(
        &mut d,
        |d: &mut Deleted, x: &u32| d.buffers.push(*x),
        |d: &mut Deleted, x: &u32| d.array_buffers.push(*x),
        |d: &mut Deleted, x: &u32| d.shaders.push(*x),
        |d: &mut Deleted, x: &u32| d.programs.push(*x),
        |d: &mut Deleted, x: &u32| d.pipeline_states.push(*x),
        |d: &mut Deleted, x: &u32| d.frame_buffers.push(*x),
        |d: &mut Deleted, x: &u32| d.surfaces.push(*x),
        |d: &mut Deleted, x: &u32| d.textures.push(*x),
        |d: &mut Deleted, x: &u32| d.samplers.push(*x),
        |d: &mut Deleted, x: &u32| d.fences.push(*x),
    );
    d
}

#[test]
fn new_manager_holds_nothing() {
    let m: Manager<R> = Manager::new();
    assert_eq!(m.count(), 0);
}

#[test]
fn make_buffer_records_and_describes() {
    let mut m: Manager<R> = Manager::new();
    let h = m.make_buffer(7, buffer_info(64));
    assert_eq!(m.count(), 1);
    assert_eq!(*h.get_info(), buffer_info(64));
}

#[test]
fn every_make_records_one_reference() {
    let mut m: Manager<R> = Manager::new();
    let _a = m.make_buffer(1, buffer_info(8));
    let _b = m.make_array_buffer(2);
    let _c = m.make_shader(3);
    let p = m.make_program(4, program_info());
    let info = PipelineInfo { vertex_buffers: 2, primitive_vertices: 3, cull_faces: true };
    let ps = m.make_pipeline_state(5, info, program_info());
    let _f = m.make_frame_buffer(6);
    let si = SurfaceInfo { width: 640, height: 480, samples: 4 };
    let s = m.make_surface(7, si);
    let ti = TextureInfo { width: 256, height: 128, depth: 1, levels: 9 };
    let t = m.make_texture(8, ti);
    let smi = SamplerInfo { filter: 2, wrap: 1, lod_bias: -64 };
    let sm = m.make_sampler(9, smi);
    let _fe = m.make_fence(10);
    assert_eq!(m.count(), 10);
    assert_eq!(*p.get_info(), program_info());
    assert_eq!(*ps.get_info(), info);
    assert_eq!(*ps.get_program_info(), program_info());
    assert_eq!(*s.get_info(), si);
    assert_eq!(*t.get_info(), ti);
    assert_eq!(*sm.get_info(), smi);
}

#[test]
fn ref_returns_name_and_records() {
    let mut m: Manager<R> = Manager::new();
    let b = m.make_buffer(11, buffer_info(8));
    let ab = m.make_array_buffer(12);
    let sh = m.make_shader(13);
    let p = m.make_program(14, program_info());
    let info = PipelineInfo { vertex_buffers: 1, primitive_vertices: 2, cull_faces: false };
    let ps = m.make_pipeline_state(15, info, program_info());
    let fb = m.make_frame_buffer(16);
    let s = m.make_surface(17, SurfaceInfo { width: 1, height: 1, samples: 1 });
    let t = m.make_texture(18, TextureInfo { width: 1, height: 1, depth: 1, levels: 1 });
    let sm = m.make_sampler(19, SamplerInfo { filter: 0, wrap: 0, lod_bias: 0 });
    let fe = m.make_fence(20);
    assert_eq!(m.count(), 10);

    let mut cb: Manager<R> = Manager::new();
    assert_eq!(cb.ref_buffer(&b), 11);
    assert_eq!(cb.ref_array_buffer(&ab), 12);
    assert_eq!(cb.ref_shader(&sh), 13);
    assert_eq!(cb.ref_program(&p), 14);
    assert_eq!(cb.ref_pipeline_state(&ps), 15);
    assert_eq!(cb.ref_frame_buffer(&fb), 16);
    assert_eq!(cb.ref_surface(&s), 17);
    assert_eq!(cb.ref_texture(&t), 18);
    assert_eq!(cb.ref_sampler(&sm), 19);
    assert_eq!(cb.ref_fence(&fe), 20);
    assert_eq!(cb.count(), 10);
    assert_eq!(m.count(), 10);
}

#[test]
fn clear_drops_every_reference() {
    let mut m: Manager<R> = Manager::new();
    let _b = m.make_buffer(1, buffer_info(8));
    let _s = m.make_shader(2);
    let _f = m.make_fence(3);
    assert_eq!(m.count(), 3);
    m.clear();
    assert_eq!(m.count(), 0);
}

#[test]
fn extend_adds_the_other_managers_references() {
    let mut m: Manager<R> = Manager::new();
    let b = m.make_buffer(1, buffer_info(8));
    let mut other: Manager<R> = Manager::new();
    let _s = other.make_shader(2);
    let _f = other.make_fence(3);
    other.ref_buffer(&b);
    m.extend(&other);
    assert_eq!(m.count(), 4);
    assert_eq!(other.count(), 3);
}

#[test]
fn extend_with_empty_manager_changes_nothing() {
    let mut m: Manager<R> = Manager::new();
    let _b = m.make_buffer(1, buffer_info(8));
    m.extend(&Manager::new());
    assert_eq!(m.count(), 1);
}

#[test]
fn clean_releases_only_unreferenced_resources() {
    let mut m: Manager<R> = Manager::new();
    let keep_first = m.make_buffer(1, buffer_info(8));
    let dropped = m.make_buffer(2, buffer_info(8));
    let keep_last = m.make_buffer(3, buffer_info(8));
    let gone_shader = m.make_shader(4);
    drop(dropped);
    drop(gone_shader);
    let d = clean(&mut m);
    assert_eq!(d.buffers, vec![2]);
    assert_eq!(d.shaders, vec![4]);
    assert!(d.fences.is_empty());
    assert_eq!(m.count(), 2);
    assert_eq!(keep_first.get_info().size, 8);
    assert_eq!(keep_last.get_info().size, 8);
}

#[test]
fn clean_releases_everything_once_all_handles_are_gone() {
    let mut m: Manager<R> = Manager::new();
    for i in 0..5u32 {
        let _ = m.make_texture(i, TextureInfo { width: 1, height: 1, depth: 1, levels: 1 });
    }
    let _ = m.make_fence(9);
    let d = clean(&mut m);
    assert_eq!(d.textures, vec![0, 1, 2, 3, 4]);
    assert_eq!(d.fences, vec![9]);
    assert_eq!(m.count(), 0);
    let again = clean(&mut m);
    assert!(again.textures.is_empty());
}

#[test]
fn clean_keeps_resources_the_manager_references_twice() {
    let mut m: Manager<R> = Manager::new();
    let h = m.make_buffer(5, buffer_info(8));
    m.ref_buffer(&h);
    drop(h);
    let d = clean(&mut m);
    assert!(d.buffers.is_empty());
    assert_eq!(m.count(), 2);
}

#[test]
fn buffer_len_counts_elements() {
    let mut m: Manager<R> = Manager::new();
    let raw = m.make_buffer(1, buffer_info(12));
    let b: Buffer<R, u32> = Buffer::from_raw(raw.clone());
    assert_eq!(b.len(), 3);
    assert_eq!(b.raw(), &raw);
    let c: Buffer<R, [u8; 6]> = b.cast();
    assert_eq!(c.len(), 2);
    assert_eq!(c.get_info().size, 12);
    let odd: Buffer<R, [u8; 5]> = c.cast();
    assert_eq!(odd.len(), 2);
}

#[test]
fn cmp_ref_orders_by_reference_not_data() {
    let mut m: Manager<R> = Manager::new();
    let a: RawBuffer<R> = m.make_buffer(1, buffer_info(8));
    let same_data = m.make_buffer(1, buffer_info(8));
    let a2 = a.clone();
    assert_eq!(a.cmp_ref(&a2), Ordering::Equal);
    assert_eq!(a, same_data);
    let o = a.cmp_ref(&same_data);
    assert_ne!(o, Ordering::Equal);
    assert_eq!(same_data.cmp_ref(&a), o.reverse());
}

#[test]
fn order_by_address_compares_numbers() {
    assert_eq!(order_by_address(3, 9), Ordering::Less);
    assert_eq!(order_by_address(9, 9), Ordering::Equal);
    assert_eq!(order_by_address(10, 9), Ordering::Greater);
    assert_eq!(order_by_address(0, usize::MAX), Ordering::Less);
}

#[test]
fn remove_flagged_swaps_from_the_highest_position_down() {
    let mut v = vec![10u32, 20, 30, 40, 50];
    gfx_core::positions::remove_flagged(&mut v, &vec![true, false, true, false, false]);
    assert_eq!(v, vec![40, 20, 50]);
    let mut w = vec![1u32, 2, 3];
    gfx_core::positions::remove_flagged(&mut w, &vec![false, false, false]);
    assert_eq!(w, vec![1, 2, 3]);
    let mut z = vec![1u32, 2, 3];
    gfx_core::positions::remove_flagged(&mut z, &vec![true, true, true]);
    assert!(z.is_empty());
}

#[test]
fn release_if_unused_calls_only_for_unused() {
    let mut log: Vec<u32> = Vec::new();
    let f = |l: &mut Vec<u32>, x: &u32| l.push(*x);
    gfx_core::shared::release_if_unused(&mut log, &4, false, &f);
    assert!(log.is_empty());
    gfx_core::shared::release_if_unused(&mut log, &5, true, &f);
    assert_eq!(log, vec![5]);
}

#[test]
fn clean_logs_dropped_buffers_in_order() {
    let mut m: Manager<R> = Manager::new();
    drop(m.make_buffer(1, buffer_info(8)));
    let h = m.make_buffer(2, buffer_info(8));
    drop(m.make_buffer(3, buffer_info(8)));
    let d = clean(&mut m);
    assert_eq!(d.buffers, vec![1, 3]);
    assert_eq!(m.count(), 1);
    let mut cb: Manager<R> = Manager::new();
    assert_eq!(cb.ref_buffer(&h), 2);
}

#[test]
fn second_clean_releases_nothing() {
    let mut m: Manager<R> = Manager::new();
    let _keep = m.make_shader(1);
    drop(m.make_shader(2));
    let first = clean(&mut m);
    assert_eq!(first.shaders, vec![2]);
    let second = clean(&mut m);
    assert!(second.shaders.is_empty());
    assert_eq!(m.count(), 1);
}

#[test]
fn references_shared_with_another_manager_are_kept() {
    let mut m1: Manager<R> = Manager::new();
    drop(m1.make_fence(1));
    drop(m1.make_sampler(2, SamplerInfo { filter: 0, wrap: 0, lod_bias: 0 }));
    let mut m2: Manager<R> = Manager::new();
    m2.extend(&m1);
    let d = clean(&mut m1);
    assert!(d.fences.is_empty());
    assert!(d.samplers.is_empty());
    assert_eq!(m1.count(), 2);
    drop(m2);
    let d = clean(&mut m1);
    assert_eq!(d.fences, vec![1]);
    assert_eq!(d.samplers, vec![2]);
    assert_eq!(m1.count(), 0);
}

#[test]
fn factory_keeps_what_a_command_buffer_still_uses() {
    let mut factory: Manager<R> = Manager::new();
    let mut cmd: Manager<R> = Manager::new();
    let h = factory.make_buffer(9, buffer_info(8));
    cmd.ref_buffer(&h);
    drop(h);
    let d = clean(&mut factory);
    assert!(d.buffers.is_empty());
    assert_eq!(factory.count(), 1);
    cmd.clear();
    let d = clean(&mut factory);
    assert_eq!(d.buffers, vec![9]);
}

#[test]
fn clean_after_clear_calls_nothing() {
    let mut m: Manager<R> = Manager::new();
    drop(m.make_fence(5));
    drop(m.make_buffer(1, buffer_info(8)));
    m.clear();
    let d = clean(&mut m);
    assert!(d.fences.is_empty() && d.buffers.is_empty());
    assert_eq!(m.count(), 0);
}

#[test]
fn cloned_handles_keep_their_descriptions() {
    let mut m: Manager<R> = Manager::new();
    let p = m.make_program(1, program_info());
    let si = SurfaceInfo { width: 2, height: 3, samples: 1 };
    let s = m.make_surface(2, si);
    let ti = TextureInfo { width: 4, height: 4, depth: 1, levels: 3 };
    let t = m.make_texture(3, ti);
    let smi = SamplerInfo { filter: 1, wrap: 2, lod_bias: 5 };
    let sm = m.make_sampler(4, smi);
    assert_eq!(*p.clone().get_info(), program_info());
    assert_eq!(*s.clone().get_info(), si);
    assert_eq!(*t.clone().get_info(), ti);
    assert_eq!(*sm.clone().get_info(), smi);
    let kept = t.clone();
    drop(t);
    let d = clean(&mut m);
    assert!(d.textures.is_empty());
    assert_eq!(*kept.get_info(), ti);
}
