//! The plugin store: an in-memory image of the plugins directory.
//!
//! Each plugin is one script file named `<id>.js`; the id is the file name's
//! stem. The store models the directory as an optional list of named files —
//! `None` is the absent directory, a valid empty state and not an error. The
//! surrounding program reads the real directory into the store and persists
//! the store's files back; every decision about ids, contents and the
//! generated template is made here.
use vstd::prelude::*;

use crate::strutil::{json_quote, spec_json_quote, str_eq};
use vstd::pervasive::VecAdditionalExecFns;

verus! {

/// One plugin source: the stable id and the script text.
#[derive(Debug)]
pub struct PluginSnippet {
    pub plugin_id: String,
    pub src: String,
}

/// One file of the plugins directory.
#[derive(Debug)]
pub struct PluginFile {
    pub name: String,
    pub content: String,
}

/// Failure of the plugin store.
#[derive(PartialEq, Eq, Structural, Clone, Copy, Debug)]
pub enum PluginError {
    /// No plugin of the requested id is stored.
    PluginNotFound,
    /// The platform names no configuration directory to put plugins under.
    ConfigDirUnavailable,
}

/// The application's name, under which its configuration directory stands.
pub const APP_NAME: &'static str = "codekeys";

/// Relies on `dirs::config_dir`: the current user's configuration
/// directory, when the platform defines one. What it is depends on the
/// environment, so nothing more is promised of it.
#[verifier::external_body]
fn config_dir_path() -> Option<String> {
    dirs::config_dir().and_then(|d| d.to_str().map(|s| s.to_string()))
}

/// The application's plugins directory under a configuration directory.
pub open spec fn spec_plugins_basedir(config_dir: Seq<char>) -> Seq<char> {
    config_dir + "/"@ + APP_NAME@ + "/plugins"@
}

/// Joins a configuration directory with the application's fixed plugins
/// path.
fn plugins_basedir(config_dir: String) -> (r: String)
    ensures
        r@ == spec_plugins_basedir(config_dir@),
{
    let mut basedir = config_dir;
    basedir.append("/");
    basedir.append(APP_NAME);
    basedir.append("/plugins");
    basedir
}

/// The mathematical image of one file.
pub ghost struct FileModel {
    pub name: Seq<char>,
    pub content: Seq<char>,
}

/// The mathematical image of one plugin source.
pub ghost struct SnippetModel {
    pub plugin_id: Seq<char>,
    pub src: Seq<char>,
}

impl PluginFile {
    /// The file's image.
    pub open spec fn model(&self) -> FileModel {
        FileModel { name: self.name@, content: self.content@ }
    }
}

impl PluginSnippet {
    /// The snippet's image.
    pub open spec fn model(&self) -> SnippetModel {
        SnippetModel { plugin_id: self.plugin_id@, src: self.src@ }
    }
}

/// The images of a list of files.
pub open spec fn models_of(files: Seq<PluginFile>) -> Seq<FileModel> {
    files.map_values(|f: PluginFile| f.model())
}

/// Whether a file name is a script name: a non-empty stem followed by the
/// script extension. A file named by the bare extension has no id and is no
/// plugin.
pub open spec fn spec_is_script(name: Seq<char>) -> bool {
    name.len() > 3 && name.subrange(name.len() - 3, name.len() as int) == ".js"@
}

/// The stem of a script name: everything before the extension.
pub open spec fn spec_stem(name: Seq<char>) -> Seq<char> {
    name.subrange(0, name.len() - 3)
}

/// The ids of the script files, in directory order: the stem of every file
/// whose name ends in the script extension.
pub open spec fn spec_ids(files: Seq<FileModel>) -> Seq<Seq<char>>
    decreases files.len(),
{
    if files.len() == 0 {
        Seq::<Seq<char>>::empty()
    } else {
        let rest = spec_ids(files.drop_first());
        if spec_is_script(files[0].name) {
            seq![spec_stem(files[0].name)] + rest
        } else {
            rest
        }
    }
}

/// The content of the first file of that name, or `None`.
pub open spec fn spec_lookup(files: Seq<FileModel>, name: Seq<char>) -> Option<Seq<char>>
    decreases files.len(),
{
    if files.len() == 0 {
        None
    } else if files[0].name == name {
        Some(files[0].content)
    } else {
        spec_lookup(files.drop_first(), name)
    }
}

/// The directory after writing `content` under `name`: the first file of
/// that name is replaced, or the file is appended when the name is new.
pub open spec fn spec_put(files: Seq<FileModel>, name: Seq<char>, content: Seq<char>) -> Seq<
    FileModel,
>
    decreases files.len(),
{
    if files.len() == 0 {
        seq![FileModel { name, content }]
    } else if files[0].name == name {
        seq![FileModel { name, content }] + files.drop_first()
    } else {
        seq![files[0]] + spec_put(files.drop_first(), name, content)
    }
}

/// The sources of all script files, in directory order, each under its id.
pub open spec fn spec_snippets(files: Seq<FileModel>) -> Seq<SnippetModel>
    decreases files.len(),
{
    if files.len() == 0 {
        Seq::<SnippetModel>::empty()
    } else {
        let rest = spec_snippets(files.drop_first());
        if spec_is_script(files[0].name) {
            seq![
                SnippetModel { plugin_id: spec_stem(files[0].name), src: files[0].content },
            ] + rest
        } else {
            rest
        }
    }
}

/// The store: the directory's path and its current image. `dir` of `None`
/// models the directory not existing yet.
pub struct Plugins {
    pub basedir: String,
    pub dir: Option<Vec<PluginFile>>,
}

impl Plugins {
    /// The directory image, when the directory exists.
    pub open spec fn files_model(&self) -> Option<Seq<FileModel>> {
        match self.dir {
            Some(v) => Some(models_of(v@)),
            None => None,
        }
    }

    /// The directory image, the absent directory counting as empty.
    pub open spec fn files_or_empty(&self) -> Seq<FileModel> {
        match self.files_model() {
            Some(fs) => fs,
            None => Seq::<FileModel>::empty(),
        }
    }

    /// The ids the store lists: none at all while the directory is absent.
    pub open spec fn spec_list(&self) -> Seq<Seq<char>> {
        spec_ids(self.files_or_empty())
    }

    /// A store under the user's configuration directory, over a directory
    /// image that is not read in yet. Fails exactly when the platform names
    /// no configuration directory; otherwise the base directory is the
    /// application's plugins path under that directory.
    pub fn new() -> (r: Result<Plugins, PluginError>)
        ensures
            (match r {
                Ok(p) => p.files_model() is None && (exists|config_dir: Seq<char>|
                    p.basedir@ == #[trigger] spec_plugins_basedir(config_dir)),
                Err(e) => e == PluginError::ConfigDirUnavailable,
            }),
    {
        match config_dir_path() {
            Some(config_dir) => {
                let ghost dir_view = config_dir@;
                let basedir = plugins_basedir(config_dir);
                let p = Plugins::new_with_basedir(basedir);
                proof {
                    assert(p.basedir@ == spec_plugins_basedir(dir_view));
                }
                Ok(p)
            },
            None => Err(PluginError::ConfigDirUnavailable),
        }
    }

    /// A store over a directory that does not exist yet.
    pub fn new_with_basedir(basedir: String) -> (p: Plugins)
        ensures
            p.basedir == basedir,
            p.files_model() is None,
    {
        Plugins { basedir, dir: None }
    }

    /// A store over a directory image the surrounding program read in.
    pub fn from_entries(basedir: String, dir: Option<Vec<PluginFile>>) -> (p: Plugins)
        ensures
            p.basedir == basedir,
            p.dir == dir,
    {
        Plugins { basedir, dir }
    }

    /// The ids of the plugins present, in directory order. A missing
    /// directory yields the empty list, not an error.
    pub fn list(&self) -> (r: Vec<String>)
        ensures
            r@.map_values(|s: String| s@) == self.spec_list(),
    {
        match &self.dir {
            None => {
                let r: Vec<String> = Vec::new();
                proof {
                    assert(r@.map_values(|s: String| s@) =~= self.spec_list());
                }
                r
            },
            Some(files) => {
                let ghost fm = models_of(files@);
                let mut out: Vec<String> = Vec::new();
                let mut i: usize = 0;
                proof {
                    assert(out@.map_values(|s: String| s@) =~= Seq::<Seq<char>>::empty());
                    assert(fm.skip(0) =~= fm);
                }
                while i < files.len()
                    invariant
                        i <= files@.len(),
                        fm == models_of(files@),
                        spec_ids(fm) == out@.map_values(|s: String| s@) + spec_ids(
                            fm.skip(i as int),
                        ),
                    decreases files@.len() - i,
                {
                    proof {
                        assert(fm[i as int] == files@[i as int].model());
                        assert(fm.skip(i as int)[0] == fm[i as int]);
                        assert(fm.skip(i as int).drop_first() =~= fm.skip(i + 1));
                    }
                    let name = files[i].name.as_str();
                    let len = name.unicode_len();
                    let mut is_script = false;
                    if len > 3 {
                        let sfx = name.substring_char(len - 3, len);
                        if str_eq(sfx, ".js") {
                            is_script = true;
                            let stem = name.substring_char(0, len - 3);
                            let id = stem.to_owned();
                            let ghost out_pre = out@;
                            out.push(id);
                            proof {
                                assert(out@.map_values(|s: String| s@) =~= out_pre.map_values(
                                    |s: String| s@,
                                ).push(spec_stem(fm[i as int].name)));
                            }
                        }
                    }
                    proof {
                        assert(is_script == spec_is_script(fm[i as int].name));
                    }
                    i += 1;
                }
                proof {
                    assert(fm.skip(i as int) =~= Seq::<FileModel>::empty());
                    assert(spec_ids(fm) =~= out@.map_values(|s: String| s@));
                }
                out
            },
        }
    }

    /// The source stored under an id. `PluginNotFound` exactly when the
    /// directory is absent or holds no file named `<id>.js`.
    #[verifier::loop_isolation(false)]
    pub fn load(&self, plugin_id: String) -> (r: Result<PluginSnippet, PluginError>)
        ensures
            match r {
                Ok(snippet) => {
                    &&& snippet.plugin_id@ == plugin_id@
                    &&& spec_lookup(self.files_or_empty(), plugin_id@ + ".js"@) == Some(
                        snippet.src@,
                    )
                },
                Err(e) => {
                    &&& e == PluginError::PluginNotFound
                    &&& spec_lookup(self.files_or_empty(), plugin_id@ + ".js"@) is None
                },
            },
    {
        let mut fname = plugin_id.clone();
        fname.append(".js");
        match &self.dir {
            None => Err(PluginError::PluginNotFound),
            Some(files) => {
                let ghost fm = models_of(files@);
                let mut i: usize = 0;
                proof {
                    assert(fm.skip(0) =~= fm);
                }
                while i < files.len()
                    invariant
                        i <= files@.len(),
                        fm == models_of(files@),
                        fname@ == plugin_id@ + ".js"@,
                        spec_lookup(fm, fname@) == spec_lookup(fm.skip(i as int), fname@),
                    decreases files@.len() - i,
                {
                    proof {
                        assert(fm[i as int] == files@[i as int].model());
                        assert(fm.skip(i as int)[0] == fm[i as int]);
                        assert(fm.skip(i as int).drop_first() =~= fm.skip(i + 1));
                    }
                    if str_eq(files[i].name.as_str(), fname.as_str()) {
                        let src = files[i].content.clone();
                        proof {
                            assert(fm[i as int].name == fname@);
                            assert(spec_lookup(fm.skip(i as int), fname@) == Some(
                                fm[i as int].content,
                            ));
                            assert(self.dir is Some);
                            assert(self.files_model() == Some(models_of(files@)));
                            assert(src@ == fm[i as int].content);
                        }
                        return Ok(PluginSnippet { plugin_id, src });
                    }
                    i += 1;
                }
                proof {
                    assert(fm.skip(i as int) =~= Seq::<FileModel>::empty());
                }
                Err(PluginError::PluginNotFound)
            },
        }
    }

    /// Writes `content` under `<plugin_id>.js`, creating the directory image
    /// when it was absent and overwriting a file of the same name.
    #[verifier::loop_isolation(false)]
    pub fn write(&mut self, plugin_id: String, content: String)
        ensures
            final(self).basedir == old(self).basedir,
            final(self).files_model() == Some(
                spec_put(old(self).files_or_empty(), plugin_id@ + ".js"@, content@),
            ),
    {
        let ghost fm0 = old(self).files_or_empty();
        let ghost pid = plugin_id@;
        let ghost ct = content@;
        let mut fname = plugin_id;
        fname.append(".js");
        let ghost nm = fname@;
        proof {
            assert(nm == pid + ".js"@);
        }
        let taken = self.dir.take();
        let mut files: Vec<PluginFile> = match taken {
            Some(v) => v,
            None => Vec::new(),
        };
        proof {
            assert(models_of(files@) =~= fm0);
        }
        let mut i: usize = 0;
        while i < files.len()
            invariant
                i <= files@.len(),
                fm0 == models_of(files@),
                nm == fname@,
                ct == content@,
                self.basedir == old(self).basedir,
                forall|j: int| 0 <= j < i ==> fm0[j].name != nm,
            decreases files@.len() - i,
        {
            proof {
                assert(fm0[i as int] == files@[i as int].model());
            }
            if str_eq(files[i].name.as_str(), fname.as_str()) {
                let ghost at = i as int;
                let ghost fv0 = files@;
                files.set(i, PluginFile { name: fname, content });
                proof {
                    lemma_put_found(fm0, nm, ct, at);
                    let target = fm0.update(at, FileModel { name: nm, content: ct });
                    assert forall|j: int| 0 <= j < files@.len() implies models_of(files@)[j]
                        == target[j] by {
                        assert(models_of(files@)[j] == files@[j].model());
                        if j != at {
                            assert(files@[j] == fv0[j]);
                            assert(fm0[j] == fv0[j].model());
                        }
                    }
                    assert(models_of(files@) =~= target);
                    assert(models_of(files@) == spec_put(fm0, nm, ct));
                }
                self.dir = Some(files);
                proof {
                    assert(self.files_model() == Some(spec_put(fm0, nm, ct)));
                }
                return ;
            }
            i += 1;
        }
        let ghost fv0 = files@;
        files.push(PluginFile { name: fname, content });
        proof {
            lemma_put_absent(fm0, nm, ct);
            let target = fm0.push(FileModel { name: nm, content: ct });
            assert forall|j: int| 0 <= j < files@.len() implies models_of(files@)[j] == target[j] by {
                assert(models_of(files@)[j] == files@[j].model());
                if j < fv0.len() {
                    assert(files@[j] == fv0[j]);
                    assert(fm0[j] == fv0[j].model());
                }
            }
            assert(models_of(files@) =~= target);
            assert(models_of(files@) == spec_put(fm0, nm, ct));
        }
        self.dir = Some(files);
        proof {
            assert(self.files_model() == Some(spec_put(fm0, nm, ct)));
        }
    }

    /// Writes a fresh plugin: the self-registering template under the given
    /// id, pre-wired with a hotkey-gated configuration schema.
    pub fn add(&mut self, plugin_id: String, name: String, description: String)
        ensures
            final(self).basedir == old(self).basedir,
            final(self).files_model() == Some(
                spec_put(
                    old(self).files_or_empty(),
                    plugin_id@ + ".js"@,
                    spec_template(plugin_id@, name@, description@),
                ),
            ),
    {
        let content = render_template(plugin_id.as_str(), name.as_str(), description.as_str());
        self.write(plugin_id, content);
    }

    /// Loads every plugin the store lists, in directory order. In this image
    /// a listed plugin is always present, so the result carries one snippet
    /// per listed id.
    pub fn load_user_scripts(&self) -> (r: Vec<PluginSnippet>)
        ensures
            r@.map_values(|p: PluginSnippet| p.model()) == spec_snippets(self.files_or_empty()),
    {
        match &self.dir {
            None => {
                let r: Vec<PluginSnippet> = Vec::new();
                proof {
                    assert(r@.map_values(|p: PluginSnippet| p.model()) =~= spec_snippets(
                        self.files_or_empty(),
                    ));
                }
                r
            },
            Some(files) => {
                let ghost fm = models_of(files@);
                let mut out: Vec<PluginSnippet> = Vec::new();
                let mut i: usize = 0;
                proof {
                    assert(out@.map_values(|p: PluginSnippet| p.model()) =~= Seq::<
                        SnippetModel,
                    >::empty());
                    assert(fm.skip(0) =~= fm);
                }
                while i < files.len()
                    invariant
                        i <= files@.len(),
                        fm == models_of(files@),
                        spec_snippets(fm) == out@.map_values(|p: PluginSnippet| p.model())
                            + spec_snippets(fm.skip(i as int)),
                    decreases files@.len() - i,
                {
                    proof {
                        assert(fm[i as int] == files@[i as int].model());
                        assert(fm.skip(i as int)[0] == fm[i as int]);
                        assert(fm.skip(i as int).drop_first() =~= fm.skip(i + 1));
                    }
                    let name = files[i].name.as_str();
                    let len = name.unicode_len();
                    let mut is_script = false;
                    if len > 3 {
                        let sfx = name.substring_char(len - 3, len);
                        if str_eq(sfx, ".js") {
                            is_script = true;
                            let stem = name.substring_char(0, len - 3);
                            let snippet = PluginSnippet {
                                plugin_id: stem.to_owned(),
                                src: files[i].content.clone(),
                            };
                            let ghost out_pre = out@;
                            out.push(snippet);
                            proof {
                                assert(out@.map_values(|p: PluginSnippet| p.model())
                                    =~= out_pre.map_values(|p: PluginSnippet| p.model()).push(
                                    SnippetModel {
                                        plugin_id: spec_stem(fm[i as int].name),
                                        src: fm[i as int].content,
                                    },
                                ));
                            }
                        }
                    }
                    proof {
                        assert(is_script == spec_is_script(fm[i as int].name));
                    }
                    i += 1;
                }
                proof {
                    assert(fm.skip(i as int) =~= Seq::<FileModel>::empty());
                    assert(spec_snippets(fm) =~= out@.map_values(|p: PluginSnippet| p.model()));
                }
                out
            },
        }
    }
}

/// Writing replaces the first file of the name when one exists.
proof fn lemma_put_found(files: Seq<FileModel>, name: Seq<char>, content: Seq<char>, i: int)
    requires
        0 <= i < files.len(),
        files[i].name == name,
        forall|j: int| 0 <= j < i ==> files[j].name != name,
    ensures
        spec_put(files, name, content) == files.update(i, FileModel { name, content }),
    decreases i,
{
    if i == 0 {
        assert(spec_put(files, name, content) =~= files.update(0, FileModel { name, content }));
    } else {
        assert(files.drop_first()[i - 1].name == name);
        lemma_put_found(files.drop_first(), name, content, i - 1);
        assert(seq![files[0]] + files.drop_first().update(i - 1, FileModel { name, content })
            =~= files.update(i, FileModel { name, content }));
    }
}

/// Writing appends the file when no file of the name exists.
proof fn lemma_put_absent(files: Seq<FileModel>, name: Seq<char>, content: Seq<char>)
    requires
        forall|j: int| 0 <= j < files.len() ==> files[j].name != name,
    ensures
        spec_put(files, name, content) == files.push(FileModel { name, content }),
    decreases files.len(),
{
    if files.len() == 0 {
        assert(spec_put(files, name, content) =~= files.push(FileModel { name, content }));
    } else {
        lemma_put_absent(files.drop_first(), name, content);
        assert(seq![files[0]] + files.drop_first().push(FileModel { name, content }) =~= files.push(
            FileModel { name, content },
        ));
    }
}

/// Round trip through the store: whatever the directory held before, after a
/// write the stored content is found again under the same name.
pub proof fn lemma_lookup_after_put(files: Seq<FileModel>, name: Seq<char>, content: Seq<char>)
    ensures
        spec_lookup(spec_put(files, name, content), name) == Some(content),
    decreases files.len(),
{
    if files.len() == 0 {
        let put = spec_put(files, name, content);
        assert(put[0] == (FileModel { name, content }));
    } else if files[0].name == name {
        let put = spec_put(files, name, content);
        assert(put[0] == (FileModel { name, content }));
    } else {
        lemma_lookup_after_put(files.drop_first(), name, content);
        let put = spec_put(files, name, content);
        assert(put[0] == files[0]);
        assert(put.drop_first() =~= spec_put(files.drop_first(), name, content));
    }
}

/// After a write under a script name, the listing contains the id: writing
/// `<id>.js` for a non-empty id always makes `id` listed.
pub proof fn lemma_listed_after_put(files: Seq<FileModel>, id: Seq<char>, content: Seq<char>)
    requires
        id.len() > 0,
    ensures
        spec_ids(spec_put(files, id + ".js"@, content)).contains(id),
    decreases files.len(),
{
    let name = id + ".js"@;
    lemma_script_name(id);
    if files.len() == 0 {
        let put = spec_put(files, name, content);
        assert(put[0] == (FileModel { name, content }));
        assert(spec_ids(put)[0] == id);
    } else if files[0].name == name {
        let put = spec_put(files, name, content);
        assert(put[0] == (FileModel { name, content }));
        assert(put.drop_first() =~= files.drop_first());
        assert(spec_ids(put)[0] == id);
    } else {
        lemma_listed_after_put(files.drop_first(), id, content);
        let put = spec_put(files, name, content);
        assert(put[0] == files[0]);
        assert(put.drop_first() =~= spec_put(files.drop_first(), name, content));
        let rest = spec_ids(spec_put(files.drop_first(), name, content));
        let k = choose|k: int| 0 <= k < rest.len() && rest[k] == id;
        if spec_is_script(files[0].name) {
            assert(spec_ids(put)[k + 1] == id);
        } else {
            assert(spec_ids(put)[k] == id);
        }
    }
}

/// A name made of a non-empty id and the script extension is a script name
/// with that id as its stem.
proof fn lemma_script_name(id: Seq<char>)
    requires
        id.len() > 0,
    ensures
        spec_is_script(id + ".js"@),
        spec_stem(id + ".js"@) == id,
{
    let name = id + ".js"@;
    reveal_strlit(".js");
    assert(name.subrange(name.len() - 3, name.len() as int) =~= ".js"@);
    assert(name.subrange(0, name.len() - 3) =~= id);
}

/// Loading everything follows the listing exactly: the loaded snippets carry
/// the listed ids, in the same order.
pub proof fn lemma_snippets_match_list(files: Seq<FileModel>)
    ensures
        spec_snippets(files).map_values(|s: SnippetModel| s.plugin_id) == spec_ids(files),
    decreases files.len(),
{
    if files.len() == 0 {
        assert(spec_snippets(files).map_values(|s: SnippetModel| s.plugin_id) =~= spec_ids(files));
    } else {
        lemma_snippets_match_list(files.drop_first());
        assert(spec_snippets(files).map_values(|s: SnippetModel| s.plugin_id) =~= spec_ids(files));
    }
}

/// The self-registering template for a fresh plugin: its id, display name
/// and description stand quoted inside; the plugin watches the modifier
/// flags, runs the macro when its configured hotkey matches a key press, and
/// declares a hotkey and a size as its configuration schema.
pub open spec fn spec_template(id: Seq<char>, name: Seq<char>, description: Seq<char>) -> Seq<
    char,
> {
    TPL_HEAD@ + spec_json_quote(id) + TPL_AFTER_ID@ + spec_json_quote(name) + TPL_AFTER_NAME@
        + spec_json_quote(description) + TPL_TAIL@
}

/// The template text before the quoted id.
pub const TPL_HEAD: &'static str = "(function () {\n    const id = ";

/// The template text between the quoted id and the quoted display name.
pub const TPL_AFTER_ID: &'static str =
    ";\n    let latest_flags = undefined;\n    registerPlugin(\n        id,\n        ";

/// The template text between the quoted display name and the quoted
/// description.
pub const TPL_AFTER_NAME: &'static str = ",\n        ";

/// The template text after the quoted description: the per-event callback
/// and the configuration schema.
pub const TPL_TAIL: &'static str =
    ",\n        function (event, config) {\n            if (event.type === \"flagsChanged\") {\n                latest_flags = event.flags;\n            } else if (event.type === \"keyDown\") {\n                if (config.hotkey.matches(latest_flags, event.keycode)) {\n                    return !run_dynamic_macro();\n                }\n            }\n            return true;\n        },\n        [\n            {\n                \"name\": \"hotkey\",\n                \"type\": \"hotkey\",\n                \"default\": \"C-t\",\n                \"description\": \"Key sequence that replays the recorded keys.\"\n            },\n            {\n                \"name\": \"size\",\n                \"type\": \"integer\",\n                \"default\": \"64\",\n                \"description\": \"How many keys the macro buffer holds.\"\n            }\n        ]\n    );\n})();\n";

/// Renders the template around the three quoted texts.
pub fn render_template(id: &str, name: &str, description: &str) -> (r: String)
    ensures
        r@ == spec_template(id@, name@, description@),
{
    let mut out = TPL_HEAD.to_owned();
    let idq = json_quote(id);
    out.append(idq.as_str());
    out.append(TPL_AFTER_ID);
    let nameq = json_quote(name);
    out.append(nameq.as_str());
    out.append(TPL_AFTER_NAME);
    let descq = json_quote(description);
    out.append(descq.as_str());
    out.append(TPL_TAIL);
    proof {
        assert(out@ =~= spec_template(id@, name@, description@));
    }
    out
}

} // verus!
