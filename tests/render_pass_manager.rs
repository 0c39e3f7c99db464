use zu_core::raymarching::{
    Point3, RaymarchingObject, RaymarchingOptions, DEFAULT_OBJECT_CAPACITY,
};
use zu_core::render_pass_manager::{RenderOptions, RenderPassManager};
use zu_core::texture_manager::{TextureHandle, TextureKind};

fn sizes(m: &RenderPassManager) -> Vec<(u64, u64)> {
    m.texture_manager.textures.iter().map(|t| (t.width, t.height)).collect()
}

#[test]
fn new_registers_scene_and_raymarching_textures() {
    let m = RenderPassManager::new(800, 600);
    assert_eq!(m.width, 800);
    assert_eq!(m.height, 600);
    let t = &m.texture_manager.textures;
    assert_eq!(t.len(), 2);
    assert_eq!(t[0].name, "SceneTexture");
    assert_eq!(t[0].kind, TextureKind::SceneTexture);
    assert_eq!(t[1].name, "Raymarching");
    assert_eq!(t[1].kind, TextureKind::Standard);
    assert_eq!(sizes(&m), vec![(800, 600), (800, 600)]);
    assert_eq!(m.raymarching_target, TextureHandle { index: 1 });
}

#[test]
fn default_options_show_raymarching() {
    let o = RenderOptions::default();
    assert_eq!(o.show, "Raymarching");
    assert_eq!(o.fov_tenths, 10);
    assert_eq!(o.rotation_milli, 0);
    assert_eq!(o.ray_origin, Point3 { x: 0, y: 0, z: 0 });
    assert_eq!(o.raymarching, RaymarchingOptions::default());
}

#[test]
fn resize_with_zero_side_is_noop() {
    let mut m = RenderPassManager::new(800, 600);
    assert!(!m.resize(0, 600));
    assert!(!m.resize(800, 0));
    assert!(!m.resize(0, 0));
    assert_eq!((m.width, m.height), (800, 600));
    assert_eq!(sizes(&m), vec![(800, 600), (800, 600)]);
}

#[test]
fn resize_reallocates_textures_to_new_size() {
    let mut m = RenderPassManager::new(800, 600);
    assert!(m.resize(1024, 768));
    assert_eq!((m.width, m.height), (1024, 768));
    assert_eq!((m.texture_manager.width, m.texture_manager.height), (1024, 768));
    assert_eq!(sizes(&m), vec![(1024, 768), (1024, 768)]);
}

#[test]
fn resize_twice_recreates_once() {
    let mut m = RenderPassManager::new(800, 600);
    assert!(m.resize(1920, 1080));
    let first = sizes(&m);
    assert!(!m.resize(1920, 1080));
    assert_eq!(sizes(&m), first);
    assert_eq!((m.width, m.height), (1920, 1080));
}

#[test]
fn resize_to_current_size_is_noop() {
    let mut m = RenderPassManager::new(800, 600);
    assert!(!m.resize(800, 600));
}

#[test]
fn resize_keeps_options() {
    let mut m = RenderPassManager::new(800, 600);
    m.get_options().fov_tenths = 450;
    assert!(m.resize(640, 480));
    assert_eq!(m.render_options.fov_tenths, 450);
}

#[test]
fn render_blits_registered_texture() {
    let mut m = RenderPassManager::new(800, 600);
    let plan = m.render(&vec![RaymarchingObject::default()], 250);
    let compute = plan.compute.unwrap();
    assert_eq!(plan.blit, Some(TextureHandle { index: 1 }));
    assert_eq!(plan.compute_target, TextureHandle { index: 1 });
    assert_eq!((compute.groups_x, compute.groups_y, compute.groups_z), (50, 38, 1));
    assert_eq!(compute.upload_count, 1);
    let c = compute.constants;
    assert_eq!((c.texture_width, c.texture_height), (800, 600));
    assert_eq!(c.elapsed_millis, 250);
    assert_eq!(c.fov_tenths, 10);
    assert_eq!(c.objects_count, 1);
}

#[test]
fn render_with_unknown_show_skips_blit() {
    let mut m = RenderPassManager::new(800, 600);
    m.get_options().show = "Missing".to_string();
    let plan = m.render(&Vec::new(), 0);
    assert_eq!(plan.blit, None);
    assert_eq!(plan.compute.unwrap().groups_x, 50);
}

#[test]
fn render_can_show_scene_texture() {
    let mut m = RenderPassManager::new(800, 600);
    m.get_options().show = "SceneTexture".to_string();
    let plan = m.render(&Vec::new(), 0);
    assert_eq!(plan.blit, Some(TextureHandle { index: 0 }));
}

#[test]
fn render_uses_edited_camera() {
    let mut m = RenderPassManager::new(800, 600);
    {
        let o = m.get_options();
        o.rotation_milli = 1571;
        o.ray_origin = Point3 { x: 0, y: 1000, z: -3000 };
    }
    let plan = m.render(&Vec::new(), 0);
    assert_eq!(plan.compute.unwrap().constants.rotation_milli, 1571);
    assert_eq!(plan.compute.unwrap().constants.ray_origin, Point3 { x: 0, y: 1000, z: -3000 });
}

#[test]
fn too_many_objects_do_not_fit() {
    let m = RenderPassManager::new(800, 600);
    assert!(!m.raymarching_pass.fits(DEFAULT_OBJECT_CAPACITY as usize + 1));
    assert!(m.raymarching_pass.fits(DEFAULT_OBJECT_CAPACITY as usize));
    assert!(m.raymarching_pass.fits(0));
}

#[test]
fn render_at_zero_size_plans_nothing() {
    let mut m = RenderPassManager::new(0, 600);
    let plan = m.render(&vec![RaymarchingObject::default(); 5], 0);
    assert_eq!(plan.compute, None);
    assert_eq!(plan.blit, None);
    assert_eq!(m.raymarching_pass.objects_count, 1);
    assert_eq!((m.width, m.height), (0, 600));
    let mut m = RenderPassManager::new(800, 0);
    let plan = m.render(&Vec::new(), 0);
    assert_eq!((plan.compute, plan.blit), (None, None));
}

#[test]
fn render_with_full_buffer_succeeds() {
    let mut m = RenderPassManager::new(800, 600);
    let objects = vec![RaymarchingObject::default(); DEFAULT_OBJECT_CAPACITY as usize];
    let plan = m.render(&objects, 0);
    assert_eq!(plan.compute.unwrap().constants.objects_count, 256);
    assert_eq!(m.raymarching_pass.objects_count, 256);
}

#[test]
fn recreate_keeps_options() {
    let mut m = RenderPassManager::new(800, 600);
    assert!(m.resize(1280, 720));
    {
        let o = m.get_options();
        o.show = "SceneTexture".to_string();
        o.fov_tenths = 900;
        o.rotation_milli = 42;
        o.ray_origin = Point3 { x: 1, y: -2, z: 3 };
    }
    m.render(&vec![RaymarchingObject::default(); 3], 0);
    let before = m.render_options.clone();
    m.recreate();
    let after = m.get_options().clone();
    assert_eq!(after.show, before.show);
    assert_eq!(after.fov_tenths, before.fov_tenths);
    assert_eq!(after.rotation_milli, before.rotation_milli);
    assert_eq!(after.ray_origin, before.ray_origin);
    assert_eq!(after.raymarching, before.raymarching);
    assert_eq!((m.width, m.height), (1280, 720));
    assert_eq!(sizes(&m), vec![(1280, 720), (1280, 720)]);
    assert_eq!(m.raymarching_pass.objects_count, 1);
}

#[test]
fn scenario_resize_and_show() {
    let mut m = RenderPassManager::new(800, 600);
    assert!(!m.resize(0, 600));
    assert_eq!((m.width, m.height), (800, 600));
    assert!(m.resize(1024, 768));
    assert_eq!(sizes(&m), vec![(1024, 768), (1024, 768)]);
    m.get_options().show = "Nonexistent".to_string();
    let plan = m.render(&Vec::new(), 0);
    assert_eq!(plan.blit, None);
    m.get_options().show = "Raymarching".to_string();
    let plan = m.render(&Vec::new(), 0);
    assert_eq!(plan.blit, Some(TextureHandle { index: 1 }));
    let compute = plan.compute.unwrap();
    assert_eq!((compute.groups_x, compute.groups_y), (64, 48));
}
