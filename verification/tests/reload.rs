use crossbeam_channel::{unbounded, Receiver, Sender};
use hotreload::change_set::ChangeSet;
use hotreload::file_watcher::FileWatcher;
use hotreload::grass::GrassPipeline;
use hotreload::handler::{needs_rebuild, reload, shaders_changed, swap_in, PipelineHandler, Reload};
use std::cell::Cell;
use hotreload::path::WatchPath;
use hotreload::pipeline::{
    BuildAction, BuildEvent, CompileDiagnostics, CompiledShader, PipelineBuild,
    RenderPipelineDescriptor, ShaderStage, ENTRY_POINT,
};
use hotreload::quad::{self, QuadPipeline};
use notify::event::{DataChange, ModifyKind};
use notify::{Event, EventKind};
use std::path::PathBuf;

type Message = Result<Event, notify::Error>;

/// The shader files of a watch root, by path.
struct Disk {
    files: Vec<(String, String)>,
}

impl Disk {
    fn with_valid_shaders() -> Disk {
        Disk {
            files: vec![
                (String::from("assets/shaders/quad.vert"), String::from("quad v1")),
                (String::from("assets/shaders/grass.vert"), String::from("grass v1")),
                (String::from("assets/shaders/blinn_phong.frag"), String::from("blinn v1")),
            ],
        }
    }

    fn write(&mut self, path: &str, text: &str) {
        for file in self.files.iter_mut() {
            if file.0 == path {
                file.1 = String::from(text);
                return;
            }
        }
        self.files.push((String::from(path), String::from(text)));
    }

    fn read(&self, path: &str) -> Option<String> {
        self.files.iter().find(|file| file.0 == path).map(|file| file.1.clone())
    }
}

/// Stands for the compiler: a text that holds "syntax error" is rejected,
/// any other text compiles to its bytes.
fn compile(stage: ShaderStage, source: &str, file_name: &str) -> Result<CompiledShader, CompileDiagnostics> {
    if source.contains("syntax error") {
        Err(CompileDiagnostics { message: format!("{}: {:?}: syntax error", file_name, stage), warnings: 0 })
    } else {
        Ok(CompiledShader {
            words: source.bytes().map(u32::from).collect(),
            entry_point: String::from(ENTRY_POINT),
            warnings: 0,
        })
    }
}

/// Runs a build to its end against the disk and the stand-in compiler.
fn run(start: (PipelineBuild, BuildAction), disk: &Disk) -> Option<RenderPipelineDescriptor> {
    let (mut build, mut action) = start;
    loop {
        let event = match action {
            BuildAction::Read { path, .. } => BuildEvent::SourceRead(disk.read(&path)),
            BuildAction::Compile { stage, source, file_name } => {
                BuildEvent::Compiled(compile(stage, &source, &file_name))
            }
            BuildAction::Link(descriptor) => return Some(descriptor),
            BuildAction::Abort(_) => return None,
            BuildAction::Nothing => return None,
        };
        let next = build.advance(event);
        build = next.0;
        action = next.1;
    }
}

/// A bundle of the tests: the words of the two shaders that it was built
/// from, and the number of vertices that it draws.
type Bundle = (Vec<u32>, Vec<u32>, usize);

fn build_quad(disk: &Disk) -> Option<Bundle> {
    let recipe = quad::create_bundle(run(quad::pipeline_build(), disk))?;
    Some((recipe.pipeline.vertex.words, recipe.pipeline.fragment.words, recipe.commands.len()))
}

fn build_grass(disk: &Disk) -> Option<Bundle> {
    let recipe = hotreload::grass::create_bundle(run(hotreload::grass::pipeline_build(), disk))?;
    Some((recipe.pipeline.vertex.words, recipe.pipeline.fragment.words, recipe.commands.len()))
}

fn words(text: &str) -> Vec<u32> {
    text.bytes().map(u32::from).collect()
}

fn watcher() -> (Sender<Message>, FileWatcher) {
    let (sender, receiver): (Sender<Message>, Receiver<Message>) = unbounded();
    let listener: notify::RecommendedWatcher =
        notify::Watcher::new_immediate(|_outcome: Message| {}).expect("a watcher without watches");
    (sender, FileWatcher::new(listener, receiver, PathBuf::from("/r")))
}

fn report_write(sender: &Sender<Message>, path: &str) {
    let event = Event::new(EventKind::Modify(ModifyKind::Data(DataChange::Content)))
        .add_path(PathBuf::from(path));
    sender.send(Ok(event)).unwrap();
}

/// One poll cycle of the frame loop. Returns how often each element was
/// built anew.
fn poll_cycle(
    files: &FileWatcher,
    disk: &Disk,
    quad: &mut QuadPipeline<Bundle>,
    grass: &mut GrassPipeline<Bundle>,
) -> (u32, u32) {
    let drained = files.collect_modified().expect("the listener is alive");
    let mut builds = (0, 0);
    if needs_rebuild(quad, &drained) {
        builds.0 += 1;
        quad.bundle_built(build_quad(disk));
    }
    if needs_rebuild(grass, &drained) {
        builds.1 += 1;
        grass.bundle_built(build_grass(disk));
    }
    builds
}

fn set_of(paths: &[&str]) -> ChangeSet {
    let mut set = ChangeSet::new();
    for path in paths {
        set.insert(WatchPath::parse(path));
    }
    set
}

#[test]
fn poll_without_changes_leaves_the_elements_alone() {
    let disk = Disk::with_valid_shaders();
    let (sender, files) = watcher();
    let mut quad = QuadPipeline::create(build_quad(&disk));
    let mut grass = GrassPipeline::create(build_grass(&disk));
    let quad_before = quad.render_bundle().cloned();
    let grass_before = grass.render_bundle().cloned();
    assert!(matches!(files.collect_modified(), Ok(None)));
    assert_eq!(poll_cycle(&files, &disk, &mut quad, &mut grass), (0, 0));
    assert_eq!(poll_cycle(&files, &disk, &mut quad, &mut grass), (0, 0));
    assert_eq!(quad.render_bundle().cloned(), quad_before);
    assert_eq!(grass.render_bundle().cloned(), grass_before);
    assert!(!needs_rebuild(&quad, &None));
    assert!(!needs_rebuild(&grass, &None));
    drop(sender);
}

#[test]
fn successful_rebuild_replaces_the_bundle_as_a_whole() {
    let mut quad: QuadPipeline<Bundle> = QuadPipeline::create(Some((vec![1], vec![2], 5)));
    assert!(quad.bundle_built(Some((vec![3, 4], vec![5], 5))));
    assert_eq!(quad.render_bundle(), Some(&(vec![3, 4], vec![5], 5)));
    let mut slot = Some(1u32);
    assert!(swap_in(&mut slot, Some(2)));
    assert_eq!(slot, Some(2));
    let mut empty: Option<u32> = None;
    assert!(swap_in(&mut empty, Some(7)));
    assert_eq!(empty, Some(7));
}

#[test]
fn failed_rebuild_keeps_the_last_good_bundle() {
    let mut disk = Disk::with_valid_shaders();
    let mut quad = QuadPipeline::create(build_quad(&disk));
    let before = quad.render_bundle().cloned();
    assert!(before.is_some());
    disk.write("assets/shaders/quad.vert", "void main( { syntax error");
    let built = build_quad(&disk);
    assert_eq!(built, None);
    assert!(!quad.bundle_built(built));
    assert_eq!(quad.render_bundle().cloned(), before);
    assert!(!quad.bundle_built(None));
    assert_eq!(quad.render_bundle().cloned(), before);
    let mut slot = Some(1u32);
    assert!(!swap_in(&mut slot, None));
    assert_eq!(slot, Some(1));
}

#[test]
fn element_without_a_successful_build_shows_nothing() {
    let mut grass: GrassPipeline<Bundle> = GrassPipeline::create(None);
    assert_eq!(grass.render_bundle(), None);
    assert!(!grass.bundle_built(None));
    assert_eq!(grass.render_bundle(), None);
    assert!(grass.bundle_built(Some((vec![1], vec![2], 5))));
    assert_eq!(grass.render_bundle(), Some(&(vec![1], vec![2], 5)));
}

#[test]
fn changed_quad_shader_concerns_the_quad_only() {
    let quad: QuadPipeline<u32> = QuadPipeline::create(None);
    let grass: GrassPipeline<u32> = GrassPipeline::create(None);
    let changed = set_of(&["/some/prefix/assets/shaders/quad.vert"]);
    assert!(quad.files_changed(&changed));
    assert!(!grass.files_changed(&changed));
    let changed = set_of(&["/some/prefix/assets/shaders/grass.vert"]);
    assert!(!quad.files_changed(&changed));
    assert!(grass.files_changed(&changed));
}

#[test]
fn changed_fragment_shader_concerns_both_elements() {
    let quad: QuadPipeline<u32> = QuadPipeline::create(None);
    let grass: GrassPipeline<u32> = GrassPipeline::create(None);
    let changed = set_of(&["/r/assets/readme.md", "/r/assets/shaders/blinn_phong.frag"]);
    assert!(quad.files_changed(&changed));
    assert!(grass.files_changed(&changed));
}

#[test]
fn unrelated_changes_concern_no_element() {
    let quad: QuadPipeline<u32> = QuadPipeline::create(Some(1));
    let grass: GrassPipeline<u32> = GrassPipeline::create(Some(2));
    let changed = set_of(&[
        "/r/assets/textures/ground.png",
        "/r/assets/shaders/water.vert",
        "/r/assets/shaders/quad.vert.bak",
        "/r/other/shaders/quad.vert",
        "/r/assets/shaders/quad.vert/backup",
    ]);
    assert!(!quad.files_changed(&changed));
    assert!(!grass.files_changed(&changed));
    assert!(!quad.files_changed(&ChangeSet::new()));
    assert!(!grass.files_changed(&ChangeSet::new()));
}

#[test]
fn shaders_changed_looks_at_both_files() {
    let changed = set_of(&["/r/x/a.vert"]);
    assert!(shaders_changed(&changed, "x/a.vert", "x/b.frag"));
    assert!(shaders_changed(&changed, "x/b.frag", "x/a.vert"));
    assert!(!shaders_changed(&changed, "x/b.vert", "x/b.frag"));
    assert!(!shaders_changed(&changed, "y/a.vert", "a.frag"));
}

#[test]
fn valid_edit_of_the_quad_shader_rebuilds_the_quad_only() {
    let mut disk = Disk::with_valid_shaders();
    let (sender, files) = watcher();
    let mut quad = QuadPipeline::create(build_quad(&disk));
    let mut grass = GrassPipeline::create(build_grass(&disk));
    let quad_before = quad.render_bundle().cloned();
    let grass_before = grass.render_bundle().cloned();
    assert_eq!(quad_before, Some((words("quad v1"), words("blinn v1"), 5)));

    disk.write("assets/shaders/quad.vert", "quad v2");
    report_write(&sender, "/r/assets/shaders/quad.vert");
    assert_eq!(poll_cycle(&files, &disk, &mut quad, &mut grass), (1, 0));

    assert_eq!(quad.render_bundle(), Some(&(words("quad v2"), words("blinn v1"), 5)));
    assert_ne!(quad.render_bundle().cloned(), quad_before);
    assert_eq!(grass.render_bundle().cloned(), grass_before);
    drop(sender);
}

#[test]
fn broken_edit_of_the_quad_shader_keeps_the_bundle() {
    let mut disk = Disk::with_valid_shaders();
    let (sender, files) = watcher();
    let mut quad = QuadPipeline::create(build_quad(&disk));
    let mut grass = GrassPipeline::create(build_grass(&disk));
    let quad_before = quad.render_bundle().cloned();
    let grass_before = grass.render_bundle().cloned();

    disk.write("assets/shaders/quad.vert", "void main( { syntax error");
    report_write(&sender, "/r/assets/shaders/quad.vert");
    assert_eq!(poll_cycle(&files, &disk, &mut quad, &mut grass), (1, 0));
    assert_eq!(quad.render_bundle().cloned(), quad_before);
    assert_eq!(grass.render_bundle().cloned(), grass_before);

    disk.write("assets/shaders/quad.vert", "quad v3");
    report_write(&sender, "/r/assets/shaders/quad.vert");
    assert_eq!(poll_cycle(&files, &disk, &mut quad, &mut grass), (1, 0));
    assert_eq!(quad.render_bundle(), Some(&(words("quad v3"), words("blinn v1"), 5)));
    drop(sender);
}

#[test]
fn double_write_within_one_poll_rebuilds_once_from_the_last_content() {
    let mut disk = Disk::with_valid_shaders();
    let (sender, files) = watcher();
    let mut quad = QuadPipeline::create(build_quad(&disk));
    let mut grass = GrassPipeline::create(build_grass(&disk));

    disk.write("assets/shaders/quad.vert", "quad first write");
    report_write(&sender, "/r/assets/shaders/quad.vert");
    disk.write("assets/shaders/quad.vert", "quad second write");
    report_write(&sender, "/r/assets/shaders/quad.vert");

    assert_eq!(poll_cycle(&files, &disk, &mut quad, &mut grass), (1, 0));
    assert_eq!(quad.render_bundle(), Some(&(words("quad second write"), words("blinn v1"), 5)));
    assert_eq!(poll_cycle(&files, &disk, &mut quad, &mut grass), (0, 0));
    drop(sender);
}

#[test]
fn missing_shader_file_gives_no_bundle() {
    let mut disk = Disk::with_valid_shaders();
    disk.files.retain(|file| file.0 != "assets/shaders/blinn_phong.frag");
    assert_eq!(build_quad(&disk), None);
    assert_eq!(build_grass(&disk), None);
    disk.write("assets/shaders/blinn_phong.frag", "blinn v2");
    assert_eq!(build_grass(&disk), Some((words("grass v1"), words("blinn v2"), 5)));
}

#[test]
fn reload_builds_only_when_a_shader_changed() {
    let builds = Cell::new(0);
    let mut quad: QuadPipeline<u32> = QuadPipeline::create(Some(1));
    let unrelated = set_of(&["/r/assets/shaders/grass.vert", "/r/notes.txt"]);
    let outcome = reload(&mut quad, &unrelated, || {
        builds.set(builds.get() + 1);
        Some(2)
    });
    assert_eq!(outcome, Reload::Unconcerned);
    assert_eq!(builds.get(), 0);
    assert_eq!(quad.render_bundle(), Some(&1));

    let changed = set_of(&["/r/notes.txt", "/r/assets/shaders/quad.vert"]);
    let outcome = reload(&mut quad, &changed, || {
        builds.set(builds.get() + 1);
        Some(2)
    });
    assert_eq!(outcome, Reload::Replaced);
    assert_eq!(builds.get(), 1);
    assert_eq!(quad.render_bundle(), Some(&2));
}

#[test]
fn reload_keeps_the_bundle_when_the_build_fails() {
    let mut grass: GrassPipeline<u32> = GrassPipeline::create(Some(5));
    let changed = set_of(&["/r/assets/shaders/blinn_phong.frag"]);
    assert_eq!(reload(&mut grass, &changed, || None), Reload::Kept);
    assert_eq!(grass.render_bundle(), Some(&5));
    assert_eq!(reload(&mut grass, &changed, || Some(6)), Reload::Replaced);
    assert_eq!(grass.render_bundle(), Some(&6));
    let mut empty: GrassPipeline<u32> = GrassPipeline::create(None);
    assert_eq!(reload(&mut empty, &changed, || None), Reload::Kept);
    assert_eq!(empty.render_bundle(), None);
}
