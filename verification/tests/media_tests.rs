use tinic::audio::AudioNewFrame;
use tinic::av_info::{GraphicApi, PixelFormat};
use tinic::database::{
    after_crc32_update, delete_all_games_query, first_path_update, get_create_game_table_query,
    get_game_pagination_query, get_insert_game_query, get_select_console_names_query,
    pagination_bounds, select_by_crc32_query, PathUpdate,
};
use tinic::gl_objects::{
    FrameBuffer, Render, RenderBuffer, Shader, ShaderLocations, ShaderProgram, Texture2D,
};
use tinic::video::{xrgb8888_to_rgb, PrintScree, RetroSync};

#[test]
fn xrgb_pixels_become_rgb() {
    let buf = [1u8, 2, 3, 4, 10, 20, 30, 40];
    assert_eq!(xrgb8888_to_rgb(&buf), vec![3, 2, 1, 30, 20, 10]);
    assert_eq!(xrgb8888_to_rgb(&[]), Vec::<u8>::new());
}

#[test]
fn screenshot_of_xrgb_frame() {
    let buf: Vec<u8> = (0..2 * 2 * 4).map(|i| i as u8).collect();
    let frame = PrintScree::take(PixelFormat::Xrgb8888, &buf, 2, 2).ok().unwrap();
    assert_eq!(frame.image.width(), 2);
    assert_eq!(frame.image.height(), 2);
    assert_eq!(frame.image.as_raw().clone(), vec![2, 1, 0, 6, 5, 4, 10, 9, 8, 14, 13, 12]);
    assert_eq!(frame.image.get_pixel(1, 1).0, [14, 13, 12]);
}

#[test]
fn screenshot_of_other_format_is_refused() {
    let buf = vec![0u8; 4];
    let e = PrintScree::take(PixelFormat::Rgb565, &buf, 1, 1).err().unwrap();
    assert_eq!(e.message, "Formato de pixel desconhecido");
}

#[test]
fn screenshot_of_wrong_sized_buffer_is_refused() {
    let buf = vec![0u8; 12];
    let e = PrintScree::take(PixelFormat::Xrgb8888, &buf, 2, 2).err().unwrap();
    assert_eq!(e.message, "Tamanho do buffer video esta errado");
    let e = PrintScree::take(PixelFormat::Rgb1555, &buf, 2, 2).err().unwrap();
    assert_eq!(e.message, "Formato de pixel desconhecido");
}

#[test]
fn first_frame_is_always_due() {
    let mut s = RetroSync::default();
    assert!(s.sync(1000, 16));
    assert_eq!(s.last_time, Some(1000));
}

#[test]
fn frame_due_after_its_duration() {
    let mut s = RetroSync::default();
    s.sync(1000, 16);
    assert!(!s.sync(1010, 16));
    assert_eq!(s.last_time, Some(1000));
    assert!(s.sync(1016, 16));
    assert_eq!(s.last_time, Some(1016));
    // a clock that goes back counts as no time passed
    assert!(!s.sync(900, 16));
    assert!(s.sync(900, 0));
}

#[test]
fn audio_frames() {
    let mut a = AudioNewFrame::new();
    assert!(a.samples().is_none());
    assert_eq!(a.channel, 2);
    assert_eq!(a.set_batch(vec![1, 2, 3, 4, 5, 6], 3), 3);
    assert_eq!(a.samples(), Some(vec![1, 2, 3, 4, 5, 6]));
    a.set_sample(-7, 7);
    assert_eq!(a.frames, 1);
    assert_eq!(a.samples(), Some(vec![-7, 7]));
}

#[test]
fn audio_plays_only_the_frames_announced() {
    let a = AudioNewFrame { data: Some(vec![1, 2, 3, 4]), frames: 1, channel: 2 };
    assert_eq!(a.samples(), Some(vec![1, 2]));
}

#[test]
fn gl_objects_keep_their_names() {
    assert_eq!(FrameBuffer::from_id(3).get_id(), 3);
    assert_eq!(RenderBuffer::from_id(4).get_id(), 4);
    assert_eq!(Texture2D::from_id(5).get_id(), 5);
}

#[test]
fn shader_compile_and_link_outcomes() {
    assert_eq!(Shader::compiled(7, 1, String::new()).ok().unwrap().id, 7);
    let e = Shader::compiled(7, 0, "syntax error".to_string()).err().unwrap();
    assert_eq!(e.message, "syntax error");
    assert_eq!(ShaderProgram::linked(9, 1, String::new()).ok().unwrap().get_id(), 9);
    let e = ShaderProgram::linked(9, 0, "link failed".to_string()).err().unwrap();
    assert_eq!(e.message, "link failed");
}

#[test]
fn render_records_its_frame_buffer() {
    let mut api = GraphicApi::default();
    api.depth = true;
    let program = ShaderProgram::linked(1, 1, String::new()).ok().unwrap();
    let locations = ShaderLocations { i_pos: 0, i_tex_pos: 1, u_tex: 2 };
    let r = Render::new(
        program,
        Texture2D::from_id(2),
        locations,
        3,
        4,
        FrameBuffer::from_id(11),
        Some(RenderBuffer::from_id(12)),
        &mut api,
    );
    assert_eq!(api.fbo, Some(11));
    assert_eq!(r.frame_buffer_id(), 11);
    assert!(api.depth);
}

#[test]
fn crc32_query_has_one_placeholder_per_value() {
    assert_eq!(select_by_crc32_query(0), None);
    assert_eq!(select_by_crc32_query(1).unwrap(), "SELECT * FROM game_info WHERE crc32 IN (?)");
    assert_eq!(select_by_crc32_query(3).unwrap(), "SELECT * FROM game_info WHERE crc32 IN (?,?,?)");
}

#[test]
fn pagination() {
    assert_eq!(pagination_bounds(1, 20), (20, 0));
    assert_eq!(pagination_bounds(3, 20), (20, 40));
    assert_eq!(pagination_bounds(0, 20), (20, 0));
}

#[test]
fn path_update_falls_back_to_rom_name() {
    assert!(first_path_update(Some(0x12345678)) == PathUpdate::ByCrc32(0x12345678));
    assert!(first_path_update(None) == PathUpdate::ByRomName);
    assert!(after_crc32_update(2) == PathUpdate::Done(2));
    assert!(after_crc32_update(0) == PathUpdate::ByRomName);
}

#[test]
fn fixed_queries() {
    assert_eq!(delete_all_games_query(), "DELETE FROM game_info;");
    assert!(get_create_game_table_query().contains("CREATE TABLE IF NOT EXISTS game_info"));
    assert!(get_create_game_table_query().contains("CREATE INDEX IF NOT EXISTS ux_game_crc_console ON game_info (crc32, console_name);"));
    assert_eq!(get_insert_game_query().matches('?').count(), 17);
    assert!(get_select_console_names_query().contains("SELECT DISTINCT console_name"));
    assert!(get_game_pagination_query().contains("LIMIT ? OFFSET ?"));
}

#[test]
fn every_create_is_guarded() {
    let q = get_create_game_table_query();
    assert_eq!(q.matches("CREATE ").count(), 8);
    assert_eq!(q.matches("CREATE TABLE IF NOT EXISTS ").count() + q.matches("CREATE INDEX IF NOT EXISTS ").count(), 8);
    assert!(q.contains("\n        last_played_at INTEGER DEFAULT 0"));
    for col in ["name", "rom_name", "crc32", "rumble", "console_name"] {
        assert!(q.contains(&format!("\n        {} ", col)));
        assert!(get_insert_game_query().contains(col));
    }
}
