//! Command lines for the panorama tool suite. Each builder returns the
//! exact program name, working directory and argument list for one stage
//! of the pipeline; the unverified shell spawns the process. Every tool
//! but the project generator and the stitcher follows the common
//! `-o <project> <project>` in/out convention: it reads the shared
//! project file and rewrites it in place.

use vstd::prelude::*;
use vstd::string::*;

verus! {

/// One external tool invocation: program name, working directory and
/// argument list, ready to be spawned.
pub struct StageCommand {
    pub program: String,
    pub working_dir: String,
    pub args: Vec<String>,
}

/// The `-o <project> <project>` tail shared by the tools that rewrite the
/// project file in place.
pub open spec fn inout_tail(project: Seq<char>) -> Seq<Seq<char>> {
    seq!["-o"@, project, project]
}

/// Arguments for project generation: rectilinear projection and a very
/// narrow field of view, so that the stitcher does not try to correct
/// lens distortion in flat film scans, followed by the artifact list.
pub open spec fn pto_gen_args(project: Seq<char>, tiffs: Seq<Seq<char>>) -> Seq<Seq<char>> {
    seq!["--projection=0"@, "--fov=1"@, "-o"@, project] + tiffs
}

/// Arguments for control-point search: multi-row layout and sky/flat
/// region rejection.
pub open spec fn cpfind_args(project: Seq<char>) -> Seq<Seq<char>> {
    seq!["--multirow"@, "--celeste"@] + inout_tail(project)
}

/// Arguments for control-point cleaning.
pub open spec fn cpclean_args(project: Seq<char>) -> Seq<Seq<char>> {
    inout_tail(project)
}

/// Arguments for vertical-line search.
pub open spec fn linefind_args(project: Seq<char>) -> Seq<Seq<char>> {
    inout_tail(project)
}

/// Arguments for optimization: positions, geometry and photometric
/// parameters jointly.
pub open spec fn autooptimiser_args(project: Seq<char>) -> Seq<Seq<char>> {
    seq!["-a"@, "-m"@, "-s"@] + inout_tail(project)
}

/// Arguments for output policy: automatic canvas and crop, the enblend
/// blender, and deflate compression.
pub open spec fn pano_modify_args(project: Seq<char>) -> Seq<Seq<char>> {
    seq!["--canvas=AUTO"@, "--crop=AUTO"@, "--blender=ENBLEND"@, "--ldr-compression=DEFLATE"@]
        + inout_tail(project)
}

/// Arguments for the final stitch: the stitcher writes its output under
/// the fixed `result` prefix inside the working directory.
pub open spec fn executor_args(project: Seq<char>) -> Seq<Seq<char>> {
    seq!["--stitching"@, "--prefix=result"@, project]
}

/// Append one argument to an argument list.
fn push_arg(v: &mut Vec<String>, s: &str)
    ensures
        final(v).deep_view() == old(v).deep_view().push(s@),
{
    v.push(s.to_owned());
    proof {
        assert(v.deep_view() =~= old(v).deep_view().push(s@));
    }
}

/// Append a copy of every string in `extra` to an argument list.
fn push_all(v: &mut Vec<String>, extra: &Vec<String>)
    ensures
        final(v).deep_view() == old(v).deep_view() + extra.deep_view(),
{
    let ghost v0: Seq<Seq<char>> = v.deep_view();
    proof {
        assert(v.deep_view() =~= v0 + extra.deep_view().take(0));
    }
    let mut i: usize = 0;
    while i < extra.len()
        invariant
            i <= extra.len(),
            v.deep_view() =~= v0 + extra.deep_view().take(i as int),
        decreases extra.len() - i,
    {
        let ghost pre = v.deep_view();
        let s = extra[i].clone();
        proof {
            assert(s@ == extra@[i as int]@);
        }
        v.push(s);
        proof {
            assert(v.deep_view() =~= pre.push(extra@[i as int]@));
            assert(extra.deep_view().take(i as int + 1) =~= extra.deep_view().take(
                i as int,
            ).push(extra@[i as int]@));
            assert(pre.push(extra@[i as int]@) =~= v0 + extra.deep_view().take(i as int + 1));
        }
        i = i + 1;
    }
    proof {
        assert(extra.deep_view().take(extra.len() as int) =~= extra.deep_view());
        assert(v.deep_view() =~= v0 + extra.deep_view());
    }
}

/// Build the project-generation command. Refuses an empty artifact list:
/// a panorama project cannot be initialized from zero images.
pub fn pto_gen(project_pto: &str, input_tiffs: &Vec<String>, working_dir: &str) -> (c: Option<
    StageCommand,
>)
    ensures
        c is Some <==> input_tiffs.len() > 0,
        c matches Some(cmd) ==> cmd.program@ == "pto_gen"@ && cmd.working_dir@ == working_dir@
            && cmd.args.deep_view() == pto_gen_args(project_pto@, input_tiffs.deep_view()),
{
    if input_tiffs.len() == 0 {
        return None;
    }
    let mut args: Vec<String> = Vec::new();
    push_arg(&mut args, "--projection=0");
    push_arg(&mut args, "--fov=1");
    push_arg(&mut args, "-o");
    push_arg(&mut args, project_pto);
    push_all(&mut args, input_tiffs);
    proof {
        assert(args.deep_view() =~= pto_gen_args(project_pto@, input_tiffs.deep_view()));
    }
    Some(
        StageCommand {
            program: "pto_gen".to_owned(),
            working_dir: working_dir.to_owned(),
            args,
        },
    )
}

/// Build the control-point search command.
pub fn cpfind(project_pto: &str, working_dir: &str) -> (c: StageCommand)
    ensures
        c.program@ == "cpfind"@,
        c.working_dir@ == working_dir@,
        c.args.deep_view() == cpfind_args(project_pto@),
{
    let mut args: Vec<String> = Vec::new();
    push_arg(&mut args, "--multirow");
    push_arg(&mut args, "--celeste");
    push_arg(&mut args, "-o");
    push_arg(&mut args, project_pto);
    push_arg(&mut args, project_pto);
    proof {
        assert(args.deep_view() =~= cpfind_args(project_pto@));
    }
    StageCommand { program: "cpfind".to_owned(), working_dir: working_dir.to_owned(), args }
}

/// Build the control-point cleaning command.
pub fn cpclean(project_pto: &str, working_dir: &str) -> (c: StageCommand)
    ensures
        c.program@ == "cpclean"@,
        c.working_dir@ == working_dir@,
        c.args.deep_view() == cpclean_args(project_pto@),
{
    let mut args: Vec<String> = Vec::new();
    push_arg(&mut args, "-o");
    push_arg(&mut args, project_pto);
    push_arg(&mut args, project_pto);
    proof {
        assert(args.deep_view() =~= cpclean_args(project_pto@));
    }
    StageCommand { program: "cpclean".to_owned(), working_dir: working_dir.to_owned(), args }
}

/// Build the vertical-line search command.
pub fn linefind(project_pto: &str, working_dir: &str) -> (c: StageCommand)
    ensures
        c.program@ == "linefind"@,
        c.working_dir@ == working_dir@,
        c.args.deep_view() == linefind_args(project_pto@),
{
    let mut args: Vec<String> = Vec::new();
    push_arg(&mut args, "-o");
    push_arg(&mut args, project_pto);
    push_arg(&mut args, project_pto);
    proof {
        assert(args.deep_view() =~= linefind_args(project_pto@));
    }
    StageCommand { program: "linefind".to_owned(), working_dir: working_dir.to_owned(), args }
}

/// Build the position-optimization command.
pub fn autooptimiser(project_pto: &str, working_dir: &str) -> (c: StageCommand)
    ensures
        c.program@ == "autooptimiser"@,
        c.working_dir@ == working_dir@,
        c.args.deep_view() == autooptimiser_args(project_pto@),
{
    let mut args: Vec<String> = Vec::new();
    push_arg(&mut args, "-a");
    push_arg(&mut args, "-m");
    push_arg(&mut args, "-s");
    push_arg(&mut args, "-o");
    push_arg(&mut args, project_pto);
    push_arg(&mut args, project_pto);
    proof {
        assert(args.deep_view() =~= autooptimiser_args(project_pto@));
    }
    StageCommand {
        program: "autooptimiser".to_owned(),
        working_dir: working_dir.to_owned(),
        args,
    }
}

/// Build the output-policy command.
pub fn pano_modify(project_pto: &str, working_dir: &str) -> (c: StageCommand)
    ensures
        c.program@ == "pano_modify"@,
        c.working_dir@ == working_dir@,
        c.args.deep_view() == pano_modify_args(project_pto@),
{
    let mut args: Vec<String> = Vec::new();
    push_arg(&mut args, "--canvas=AUTO");
    push_arg(&mut args, "--crop=AUTO");
    push_arg(&mut args, "--blender=ENBLEND");
    push_arg(&mut args, "--ldr-compression=DEFLATE");
    push_arg(&mut args, "-o");
    push_arg(&mut args, project_pto);
    push_arg(&mut args, project_pto);
    proof {
        assert(args.deep_view() =~= pano_modify_args(project_pto@));
    }
    StageCommand {
        program: "pano_modify".to_owned(),
        working_dir: working_dir.to_owned(),
        args,
    }
}

/// Build the final stitch command. The stitcher writes `result.tif`
/// inside the working directory; relocating it is a separate step.
pub fn executor(project_pto: &str, working_dir: &str) -> (c: StageCommand)
    ensures
        c.program@ == "hugin_executor"@,
        c.working_dir@ == working_dir@,
        c.args.deep_view() == executor_args(project_pto@),
{
    let mut args: Vec<String> = Vec::new();
    push_arg(&mut args, "--stitching");
    push_arg(&mut args, "--prefix=result");
    push_arg(&mut args, project_pto);
    proof {
        assert(args.deep_view() =~= executor_args(project_pto@));
    }
    StageCommand {
        program: "hugin_executor".to_owned(),
        working_dir: working_dir.to_owned(),
        args,
    }
}

} // verus!
