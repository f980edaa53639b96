//! The shader build: which shaders there are, the `slangc` command that
//! compiles each one, and whether a compiled shader is out of date.
//!
//! File modification times come in as nanoseconds relative to the Unix
//! epoch (negative before it); reading them is the caller's part.

use vstd::prelude::*;

verus! {

/// Where the shader sources are.
pub const SHADER_SOURCE_DIRECTORY: &'static str = "crates/render-common/shaders";

/// Where the compiled SPIR-V goes.
pub const VULKAN_BUILT_SHADER_DIRECTORY: &'static str = "crates/render-vulkan/shaders";

/// The compiler.
pub const SHADER_COMPILER: &'static str = "slangc";

/// The capabilities every shader is compiled with.
pub const SHADER_CAPABILITIES: &'static str = "spirv_1_4+SPV_EXT_physical_storage_buffer+spvSparseResidency";

/// One entry point of a shader source and the file it compiles to.
pub struct ShaderDecl {
    pub path: &'static str,
    pub entry_point: &'static str,
    pub output: &'static str,
}

/// A command to run: the program and its arguments.
pub struct Task {
    pub command: String,
    pub args: Vec<String>,
}

/// The views of a list of strings.
pub open spec fn string_views(v: Seq<String>) -> Seq<Seq<char>> {
    v.map_values(|s: String| s@)
}

/// `dir/file`.
pub open spec fn joined_path(dir: Seq<char>, file: Seq<char>) -> Seq<char> {
    dir + "/"@ + file
}

/// A task is due when its output does not exist yet, or is older than its
/// input or than the build tool itself.
pub open spec fn task_due(input_modified: i128, output_modified: Option<i128>, exe_modified: i128) -> bool {
    match output_modified {
        None => true,
        Some(out) => input_modified > out || exe_modified > out,
    }
}

/// When a compiled shader is due, compared as whole timestamps: a missing
/// output is always due; otherwise it is due exactly when the source or the
/// build tool was modified later than the output. So a later source or tool
/// never makes a due task not due, and an output newer than both is never
/// rebuilt.
pub proof fn lemma_task_due_by_time(input_modified: i128, output_modified: i128, exe_modified: i128)
    ensures
        task_due(input_modified, None, exe_modified),
        input_modified > output_modified ==> task_due(input_modified, Some(output_modified), exe_modified),
        exe_modified > output_modified ==> task_due(input_modified, Some(output_modified), exe_modified),
        input_modified <= output_modified && exe_modified <= output_modified ==> !task_due(
            input_modified,
            Some(output_modified),
            exe_modified,
        ),
        forall|later_input: i128, later_exe: i128|
            later_input >= input_modified && later_exe >= exe_modified && task_due(
                input_modified,
                Some(output_modified),
                exe_modified,
            ) ==> #[trigger] task_due(later_input, Some(output_modified), later_exe),
{
}

/// The shaders of the renderer: the vertex and fragment entry points of
/// `triangle.slang`.
pub fn shader_list() -> (r: Vec<ShaderDecl>)
    ensures
        r@.len() == 2,
        r@[0].path@ == "triangle.slang"@,
        r@[0].entry_point@ == "vert_main"@,
        r@[0].output@ == "triangle.vert.spv"@,
        r@[1].path@ == "triangle.slang"@,
        r@[1].entry_point@ == "frag_main"@,
        r@[1].output@ == "triangle.frag.spv"@,
{
    let mut list: Vec<ShaderDecl> = Vec::new();
    list.push(
        ShaderDecl { path: "triangle.slang", entry_point: "vert_main", output: "triangle.vert.spv" },
    );
    list.push(
        ShaderDecl { path: "triangle.slang", entry_point: "frag_main", output: "triangle.frag.spv" },
    );
    list
}

impl ShaderDecl {
    /// The path of the source: `crates/render-common/shaders/<path>`.
    pub fn input_path(&self) -> (r: String)
        ensures
            r@ == joined_path(SHADER_SOURCE_DIRECTORY@, self.path@),
    {
        let mut p = SHADER_SOURCE_DIRECTORY.to_owned();
        p.append("/");
        p.append(self.path);
        p
    }

    /// The path of the compiled shader: `crates/render-vulkan/shaders/<output>`.
    pub fn output_path(&self) -> (r: String)
        ensures
            r@ == joined_path(VULKAN_BUILT_SHADER_DIRECTORY@, self.output@),
    {
        let mut p = VULKAN_BUILT_SHADER_DIRECTORY.to_owned();
        p.append("/");
        p.append(self.output);
        p
    }

    /// The arguments of `slangc`: the source, the entry point, the
    /// capabilities and the output file.
    pub fn compile_args(&self) -> (r: Vec<String>)
        ensures
            string_views(r@) == seq![
                joined_path(SHADER_SOURCE_DIRECTORY@, self.path@),
                "-entry"@,
                self.entry_point@,
                "-capability"@,
                SHADER_CAPABILITIES@,
                "-o"@,
                joined_path(VULKAN_BUILT_SHADER_DIRECTORY@, self.output@),
            ],
    {
        let mut args: Vec<String> = Vec::new();
        args.push(self.input_path());
        args.push("-entry".to_owned());
        args.push(self.entry_point.to_owned());
        args.push("-capability".to_owned());
        args.push(SHADER_CAPABILITIES.to_owned());
        args.push("-o".to_owned());
        args.push(self.output_path());
        assert(string_views(args@) =~= seq![
            joined_path(SHADER_SOURCE_DIRECTORY@, self.path@),
            "-entry"@,
            self.entry_point@,
            "-capability"@,
            SHADER_CAPABILITIES@,
            "-o"@,
            joined_path(VULKAN_BUILT_SHADER_DIRECTORY@, self.output@),
        ]);
        args
    }

    /// The compile task of this shader, when it is due: when the compiled
    /// file is missing, or older than the source or than the build tool.
    /// The times are those of the source, of the compiled file (if it
    /// exists) and of the build tool.
    pub fn task(&self, input_modified: i128, output_modified: Option<i128>, exe_modified: i128) -> (r: Option<Task>)
        ensures
            r is Some <==> task_due(input_modified, output_modified, exe_modified),
            output_modified is None ==> r is Some,
            output_modified matches Some(out) ==> (r is Some <==> (input_modified > out
                || exe_modified > out)),
            r matches Some(t) ==> {
                &&& t.command@ == SHADER_COMPILER@
                &&& string_views(t.args@) == seq![
                    joined_path(SHADER_SOURCE_DIRECTORY@, self.path@),
                    "-entry"@,
                    self.entry_point@,
                    "-capability"@,
                    SHADER_CAPABILITIES@,
                    "-o"@,
                    joined_path(VULKAN_BUILT_SHADER_DIRECTORY@, self.output@),
                ]
            },
    {
        let command = SHADER_COMPILER.to_owned();
        let args = self.compile_args();
        Task::new(command, args, input_modified, output_modified, exe_modified)
    }
}

impl Task {
    /// `command args` as a task, when it is due (see `task_due`).
    pub fn new(
        command: String,
        args: Vec<String>,
        input_modified: i128,
        output_modified: Option<i128>,
        exe_modified: i128,
    ) -> (r: Option<Task>)
        ensures
            r is Some <==> task_due(input_modified, output_modified, exe_modified),
            r matches Some(t) ==> t.command == command && t.args == args,
            output_modified is None ==> r is Some,
            output_modified matches Some(out) ==> (r is Some <==> (input_modified > out
                || exe_modified > out)),
    {
        match output_modified {
            None => Some(Task { command, args }),
            Some(output_modified) => {
                if input_modified > output_modified || exe_modified > output_modified {
                    Some(Task { command, args })
                } else {
                    None
                }
            },
        }
    }
}

} // verus!
