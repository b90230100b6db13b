//! The two elements of the scene side by side: which shader file concerns
//! which element.
//!
//! The grass and the ground have a vertex shader each and share the fragment
//! shader. Wherever the watched directory lies, a change of a vertex shader
//! concerns its own element only, and a change of the fragment shader
//! concerns both.

use crate::handler::{
    concerns, lemma_changed_shader_concerns, lemma_unrelated_paths_do_not_concern,
};
use crate::path::{
    is_name, lemma_last_component, lemma_nested_path_ends_with, lemma_other_file_does_not_match,
    path_of, PathView, SEPARATOR,
};
use crate::{grass, quad};
use vstd::prelude::*;

verus! {

/// The directory that holds the shaders, relative to the watched directory.
pub const SHADER_DIRECTORY: &'static str = "assets/shaders";

/// The path of a shader file that lies below `directory`.
pub open spec fn below(directory: Seq<char>, shader: Seq<char>) -> PathView {
    path_of(directory + seq![SEPARATOR] + shader)
}

/// What is known of a shader file of the scene: it lies in the shader
/// directory under a name of its own, and its path is relative.
spec fn is_shader_file(file: Seq<char>, name: Seq<char>) -> bool {
    &&& file == SHADER_DIRECTORY@ + seq![SEPARATOR] + name
    &&& is_name(name)
    &&& forall|i: int| 0 <= i < name.len() ==> name[i] != SEPARATOR
    &&& !path_of(file).absolute
    &&& path_of(file).components.len() > 0
    &&& path_of(file).components.last() == name
}

proof fn lemma_quad_vertex_shader()
    ensures
        is_shader_file(quad::VERTEX_SHADER@, "quad.vert"@),
{
    reveal_strlit("assets/shaders");
    reveal_strlit("quad.vert");
    reveal_strlit("assets/shaders/quad.vert");
    assert(quad::VERTEX_SHADER@ =~= SHADER_DIRECTORY@ + seq![SEPARATOR] + "quad.vert"@);
    lemma_last_component(SHADER_DIRECTORY@, "quad.vert"@);
}

proof fn lemma_grass_vertex_shader()
    ensures
        is_shader_file(grass::VERTEX_SHADER@, "grass.vert"@),
{
    reveal_strlit("assets/shaders");
    reveal_strlit("grass.vert");
    reveal_strlit("assets/shaders/grass.vert");
    assert(grass::VERTEX_SHADER@ =~= SHADER_DIRECTORY@ + seq![SEPARATOR] + "grass.vert"@);
    lemma_last_component(SHADER_DIRECTORY@, "grass.vert"@);
}

proof fn lemma_fragment_shader()
    ensures
        is_shader_file(grass::FRAGMENT_SHADER@, "blinn_phong.frag"@),
        quad::FRAGMENT_SHADER@ == grass::FRAGMENT_SHADER@,
{
    reveal_strlit("assets/shaders");
    reveal_strlit("blinn_phong.frag");
    reveal_strlit("assets/shaders/blinn_phong.frag");
    assert(grass::FRAGMENT_SHADER@ =~= SHADER_DIRECTORY@ + seq![SEPARATOR] + "blinn_phong.frag"@);
    lemma_last_component(SHADER_DIRECTORY@, "blinn_phong.frag"@);
}

proof fn lemma_names_differ()
    ensures
        "quad.vert"@ != "grass.vert"@,
        "quad.vert"@ != "blinn_phong.frag"@,
        "grass.vert"@ != "blinn_phong.frag"@,
{
    reveal_strlit("quad.vert");
    reveal_strlit("grass.vert");
    reveal_strlit("blinn_phong.frag");
    assert("quad.vert"@.len() == 9);
    assert("grass.vert"@.len() == 10);
    assert("blinn_phong.frag"@.len() == 16);
}

/// A change of the ground's vertex shader, wherever the watched directory
/// lies, concerns the ground and does not concern the grass.
pub proof fn lemma_quad_shader_concerns_the_quad_only(directory: Seq<char>)
    ensures
        concerns(
            set![below(directory, quad::VERTEX_SHADER@)],
            path_of(quad::VERTEX_SHADER@),
            path_of(quad::FRAGMENT_SHADER@),
        ),
        !concerns(
            set![below(directory, quad::VERTEX_SHADER@)],
            path_of(grass::VERTEX_SHADER@),
            path_of(grass::FRAGMENT_SHADER@),
        ),
{
    let changed_path = below(directory, quad::VERTEX_SHADER@);
    let changed = set![changed_path];
    lemma_quad_vertex_shader();
    lemma_grass_vertex_shader();
    lemma_fragment_shader();
    lemma_names_differ();
    lemma_nested_path_ends_with(directory, quad::VERTEX_SHADER@);
    lemma_changed_shader_concerns(
        changed,
        changed_path,
        path_of(quad::VERTEX_SHADER@),
        path_of(quad::FRAGMENT_SHADER@),
    );
    lemma_other_file_does_not_match(
        changed_path,
        path_of(quad::VERTEX_SHADER@),
        path_of(grass::VERTEX_SHADER@),
    );
    lemma_other_file_does_not_match(
        changed_path,
        path_of(quad::VERTEX_SHADER@),
        path_of(grass::FRAGMENT_SHADER@),
    );
    lemma_unrelated_paths_do_not_concern(
        changed,
        path_of(grass::VERTEX_SHADER@),
        path_of(grass::FRAGMENT_SHADER@),
    );
}

/// A change of the grass's vertex shader, wherever the watched directory
/// lies, concerns the grass and does not concern the ground.
pub proof fn lemma_grass_shader_concerns_the_grass_only(directory: Seq<char>)
    ensures
        concerns(
            set![below(directory, grass::VERTEX_SHADER@)],
            path_of(grass::VERTEX_SHADER@),
            path_of(grass::FRAGMENT_SHADER@),
        ),
        !concerns(
            set![below(directory, grass::VERTEX_SHADER@)],
            path_of(quad::VERTEX_SHADER@),
            path_of(quad::FRAGMENT_SHADER@),
        ),
{
    let changed_path = below(directory, grass::VERTEX_SHADER@);
    let changed = set![changed_path];
    lemma_quad_vertex_shader();
    lemma_grass_vertex_shader();
    lemma_fragment_shader();
    lemma_names_differ();
    lemma_nested_path_ends_with(directory, grass::VERTEX_SHADER@);
    lemma_changed_shader_concerns(
        changed,
        changed_path,
        path_of(grass::VERTEX_SHADER@),
        path_of(grass::FRAGMENT_SHADER@),
    );
    lemma_other_file_does_not_match(
        changed_path,
        path_of(grass::VERTEX_SHADER@),
        path_of(quad::VERTEX_SHADER@),
    );
    lemma_other_file_does_not_match(
        changed_path,
        path_of(grass::VERTEX_SHADER@),
        path_of(quad::FRAGMENT_SHADER@),
    );
    lemma_unrelated_paths_do_not_concern(
        changed,
        path_of(quad::VERTEX_SHADER@),
        path_of(quad::FRAGMENT_SHADER@),
    );
}

/// A change of the shared fragment shader, wherever the watched directory
/// lies, concerns both elements.
pub proof fn lemma_fragment_shader_concerns_both(directory: Seq<char>)
    ensures
        concerns(
            set![below(directory, grass::FRAGMENT_SHADER@)],
            path_of(grass::VERTEX_SHADER@),
            path_of(grass::FRAGMENT_SHADER@),
        ),
        concerns(
            set![below(directory, quad::FRAGMENT_SHADER@)],
            path_of(quad::VERTEX_SHADER@),
            path_of(quad::FRAGMENT_SHADER@),
        ),
{
    lemma_fragment_shader();
    lemma_nested_path_ends_with(directory, grass::FRAGMENT_SHADER@);
    lemma_changed_shader_concerns(
        set![below(directory, grass::FRAGMENT_SHADER@)],
        below(directory, grass::FRAGMENT_SHADER@),
        path_of(grass::VERTEX_SHADER@),
        path_of(grass::FRAGMENT_SHADER@),
    );
    lemma_changed_shader_concerns(
        set![below(directory, quad::FRAGMENT_SHADER@)],
        below(directory, quad::FRAGMENT_SHADER@),
        path_of(quad::VERTEX_SHADER@),
        path_of(quad::FRAGMENT_SHADER@),
    );
}

} // verus!
