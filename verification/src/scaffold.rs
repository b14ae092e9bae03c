//! The scaffolding plans: which files a kernel's scaffold directory must be
//! given, and which files an invalidation must remove. The fixed template
//! files are configuration supplied by the caller; the orchestrator only
//! decides what to write where, never touches the disk itself.

use vstd::prelude::*;

verus! {

/// Mathematical model of a [`ProjectFile`].
#[verifier::ext_equal]
pub struct FileModel {
    pub dir: Seq<char>,
    pub name: Seq<char>,
    pub contents: Seq<char>,
}

/// One file of a kernel's scaffold directory: its subdirectory (possibly
/// empty, meaning the scaffold root), its filename, and its contents.
pub struct ProjectFile {
    pub dir: String,
    pub name: String,
    pub contents: String,
}

impl View for ProjectFile {
    type V = FileModel;

    open spec fn view(&self) -> FileModel {
        FileModel { dir: self.dir@, name: self.name@, contents: self.contents@ }
    }
}

impl DeepView for ProjectFile {
    type V = FileModel;

    open spec fn deep_view(&self) -> FileModel {
        self@
    }
}

impl Clone for ProjectFile {
    fn clone(&self) -> (r: Self)
        ensures
            r@ == self@,
    {
        ProjectFile { dir: self.dir.clone(), name: self.name.clone(), contents: self.contents.clone() }
    }
}

/// Mathematical model of a [`ScaffoldConfig`].
#[verifier::ext_equal]
pub struct ScaffoldModel {
    pub templates: Seq<FileModel>,
    pub device_dir: Seq<char>,
    pub device_name: Seq<char>,
    pub artifact_dir: Seq<char>,
    pub artifact_name: Seq<char>,
}

/// The static configuration of the scaffolding engine: the fixed template
/// files written verbatim into a kernel's scaffold directory, the designated
/// place of the device-source file, and the place the toolchain deposits the
/// compiled artifact. Supplied by the caller; not computed here.
pub struct ScaffoldConfig {
    /// The fixed template files. An entry with empty contents marks a file
    /// the scaffold owns (so invalidation removes it) but does not write.
    pub templates: Vec<ProjectFile>,
    /// Subdirectory of the device-source file.
    pub device_dir: String,
    /// Filename of the device-source file.
    pub device_name: String,
    /// Subdirectory the toolchain writes the compiled artifact to.
    pub artifact_dir: String,
    /// Filename of the compiled artifact.
    pub artifact_name: String,
}

impl View for ScaffoldConfig {
    type V = ScaffoldModel;

    open spec fn view(&self) -> ScaffoldModel {
        ScaffoldModel {
            templates: self.templates.deep_view(),
            device_dir: self.device_dir@,
            device_name: self.device_name@,
            artifact_dir: self.artifact_dir@,
            artifact_name: self.artifact_name@,
        }
    }
}

/// The template entries that actually get written: those with contents.
pub open spec fn kept(ts: Seq<FileModel>) -> Seq<FileModel>
    decreases ts.len(),
{
    if ts.len() == 0 {
        Seq::empty()
    } else {
        kept(ts.drop_last()) + (if ts.last().contents.len() > 0 {
            seq![ts.last()]
        } else {
            Seq::<FileModel>::empty()
        })
    }
}

/// Everything populating a scaffold writes: each template with contents,
/// verbatim and in order, then the device-source file with the given source.
pub open spec fn write_plan(c: ScaffoldModel, device: Seq<char>) -> Seq<FileModel> {
    kept(c.templates).push(
        FileModel { dir: c.device_dir, name: c.device_name, contents: device },
    )
}

/// Everything an invalidation removes: every file the scaffolding engine is
/// responsible for, whether or not populating writes it, and the
/// device-source file. Contents are irrelevant to removal and left empty
/// only for the device entry.
pub open spec fn removal_plan(c: ScaffoldModel) -> Seq<FileModel> {
    c.templates.push(FileModel { dir: c.device_dir, name: c.device_name, contents: Seq::empty() })
}

/// The writes that populate a kernel's scaffold directory from the given
/// device source.
pub fn scaffold_writes(c: &ScaffoldConfig, device: &String) -> (r: Vec<ProjectFile>)
    ensures
        r.deep_view() == write_plan(c@, device@),
{
    let mut out: Vec<ProjectFile> = Vec::new();
    let mut idx: usize = 0;
    while idx < c.templates.len()
        invariant
            idx <= c.templates@.len(),
            out.deep_view() == kept(c.templates.deep_view().take(idx as int)),
        decreases c.templates@.len() - idx,
    {
        let ghost pre = out.deep_view();
        let t = &c.templates[idx];
        if !t.contents.as_str().is_empty() {
            out.push(t.clone());
            proof {
                assert(out.deep_view() =~= pre.push(c.templates.deep_view()[idx as int]));
            }
        }
        proof {
            let ts = c.templates.deep_view();
            assert(ts.take(idx + 1).drop_last() =~= ts.take(idx as int));
            assert(ts.take(idx + 1).last() == ts[idx as int]);
            assert(out.deep_view() =~= kept(ts.take(idx + 1)));
        }
        idx = idx + 1;
    }
    proof {
        assert(c.templates.deep_view().take(c.templates@.len() as int) =~= c.templates.deep_view());
    }
    let ghost pre = out.deep_view();
    out.push(
        ProjectFile {
            dir: c.device_dir.clone(),
            name: c.device_name.clone(),
            contents: device.clone(),
        },
    );
    proof {
        assert(out.deep_view() =~= pre.push(
            FileModel { dir: c.device_dir@, name: c.device_name@, contents: device@ },
        ));
        assert(out.deep_view() =~= write_plan(c@, device@));
    }
    out
}

/// The removals that clear a kernel's scaffold directory on invalidation.
pub fn scaffold_removals(c: &ScaffoldConfig) -> (r: Vec<ProjectFile>)
    ensures
        r.deep_view() == removal_plan(c@),
{
    let mut out: Vec<ProjectFile> = Vec::new();
    let mut idx: usize = 0;
    while idx < c.templates.len()
        invariant
            idx <= c.templates@.len(),
            out.deep_view() == c.templates.deep_view().take(idx as int),
        decreases c.templates@.len() - idx,
    {
        let ghost pre = out.deep_view();
        out.push(c.templates[idx].clone());
        proof {
            assert(out.deep_view() =~= pre.push(c.templates.deep_view()[idx as int]));
            assert(out.deep_view() =~= c.templates.deep_view().take(idx + 1));
        }
        idx = idx + 1;
    }
    let ghost pre = out.deep_view();
    out.push(
        ProjectFile {
            dir: c.device_dir.clone(),
            name: c.device_name.clone(),
            contents: String::new(),
        },
    );
    proof {
        assert(pre =~= c.templates.deep_view());
        assert(out.deep_view() =~= pre.push(
            FileModel { dir: c.device_dir@, name: c.device_name@, contents: Seq::empty() },
        ));
        assert(out.deep_view() =~= removal_plan(c@));
    }
    out
}

} // verus!
