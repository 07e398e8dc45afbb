use vstd::prelude::*;

verus! {

/// The source of one plugin file.
#[derive(Debug)]
pub struct PluginSnippet {
    pub filename: String,
    pub src: String,
}

/// One entry of the plugin directory, as the storage reports it.
#[derive(Debug)]
pub struct DirEntry {
    pub name: String,
    pub is_file: bool,
}

/// The outcome of reading one listed plugin file: its name, and its source when the read
/// succeeded.
#[derive(Debug)]
pub struct ReadOutcome {
    pub filename: String,
    pub src: Option<String>,
}

/// A file name with the script extension: a non-empty stem, then `.js`.
pub open spec fn is_script_name(n: Seq<char>) -> bool {
    n.len() > 3 && n.subrange(n.len() - 3, n.len() as int) == seq!['.', 'j', 's']
}

/// The names of the script files among `entries`, in listing order.
pub open spec fn script_names(entries: Seq<DirEntry>) -> Seq<Seq<char>>
    decreases entries.len(),
{
    if entries.len() == 0 {
        Seq::empty()
    } else {
        let e = entries.last();
        let rest = script_names(entries.drop_last());
        if e.is_file && is_script_name(e.name@) {
            rest.push(e.name@)
        } else {
            rest
        }
    }
}

/// The (file name, source) of each read that succeeded, in order.
pub open spec fn read_snippets(reads: Seq<ReadOutcome>) -> Seq<(Seq<char>, Seq<char>)>
    decreases reads.len(),
{
    if reads.len() == 0 {
        Seq::empty()
    } else {
        let r = reads.last();
        let rest = read_snippets(reads.drop_last());
        match r.src {
            Some(src) => rest.push((r.filename@, src@)),
            None => rest,
        }
    }
}

/// The source of a new plugin file with the given id, display name and description.
pub open spec fn plugin_template(id: Seq<char>, name: Seq<char>, description: Seq<char>) -> Seq<char> {
    "\n    registerPlugin(\n        \""@ + id + "\",\n        \""@ + name + "\",\n        `"@
        + description + "`,\n    )\n    "@
}

/// The plugin files of one directory.
pub struct Plugins {
    basedir: String,
}

impl Plugins {
    pub closed spec fn basedir_spec(&self) -> Seq<char> {
        self.basedir@
    }

    /// Plugins kept under `basedir`.
    pub fn new_with_basedir(basedir: String) -> (r: Plugins)
        ensures
            r.basedir_spec() == basedir@,
    {
        Plugins { basedir }
    }

    /// The directory of the plugin files.
    pub fn basedir(&self) -> (r: &String)
        ensures
            r@ == self.basedir_spec(),
    {
        &self.basedir
    }

    /// The path of a plugin file of this directory.
    pub fn plugin_path(&self, filename: &str) -> (r: String)
        ensures
            r@ == self.basedir_spec() + seq!['/'] + filename@,
    {
        let mut p = self.basedir.clone();
        p.append("/");
        p.append(filename);
        proof {
            reveal_strlit("/");
        }
        assert(p@ =~= self.basedir_spec() + seq!['/'] + filename@);
        p
    }

    /// The names of the script files in a listing of the directory, in listing order: the
    /// regular files whose name has the `.js` extension.
    pub fn list(&self, entries: Vec<DirEntry>) -> (r: Vec<String>)
        ensures
            r@.map_values(|s: String| s@) == script_names(entries@),
    {
        let mut out: Vec<String> = Vec::new();
        let mut i: usize = 0;
        while i < entries.len()
            invariant
                i <= entries@.len(),
                out@.map_values(|s: String| s@) == script_names(entries@.subrange(0, i as int)),
            decreases entries@.len() - i,
        {
            let e = &entries[i];
            proof {
                assert(entries@.subrange(0, i + 1).drop_last() =~= entries@.subrange(0, i as int));
            }
            if e.is_file && has_script_extension(&e.name) {
                out.push(e.name.clone());
                proof {
                    assert(out@.map_values(|s: String| s@) =~= script_names(
                        entries@.subrange(0, i as int),
                    ).push(e.name@));
                }
            }
            i = i + 1;
        }
        proof {
            assert(entries@.subrange(0, entries@.len() as int) =~= entries@);
        }
        out
    }

    /// The snippets of the files that could be read, in listing order; a file whose read
    /// failed is skipped.
    pub fn read_user_scripts(&self, reads: Vec<ReadOutcome>) -> (r: Vec<PluginSnippet>)
        ensures
            r@.map_values(|p: PluginSnippet| (p.filename@, p.src@)) == read_snippets(reads@),
    {
        let mut out: Vec<PluginSnippet> = Vec::new();
        let mut i: usize = 0;
        while i < reads.len()
            invariant
                i <= reads@.len(),
                out@.map_values(|p: PluginSnippet| (p.filename@, p.src@)) == read_snippets(
                    reads@.subrange(0, i as int),
                ),
            decreases reads@.len() - i,
        {
            let r = &reads[i];
            proof {
                assert(reads@.subrange(0, i + 1).drop_last() =~= reads@.subrange(0, i as int));
            }
            match &r.src {
                Some(src) => {
                    out.push(PluginSnippet { filename: r.filename.clone(), src: src.clone() });
                    proof {
                        assert(out@.map_values(|p: PluginSnippet| (p.filename@, p.src@))
                            =~= read_snippets(reads@.subrange(0, i as int)).push(
                            (r.filename@, src@),
                        ));
                    }
                },
                None => {},
            }
            i = i + 1;
        }
        proof {
            assert(reads@.subrange(0, reads@.len() as int) =~= reads@);
        }
        out
    }

    /// The file to write for a new plugin: `<id>.js`, holding a registration of the plugin
    /// with its id, display name and description.
    pub fn add(&self, plugin_id: String, name: String, description: String) -> (r: PluginSnippet)
        ensures
            r.filename@ == plugin_id@ + ".js"@,
            r.src@ == plugin_template(plugin_id@, name@, description@),
    {
        let mut filename = plugin_id.clone();
        filename.append(".js");
        let mut src = String::from_str("\n    registerPlugin(\n        \"");
        src.append(plugin_id.as_str());
        src.append("\",\n        \"");
        src.append(name.as_str());
        src.append("\",\n        `");
        src.append(description.as_str());
        src.append("`,\n    )\n    ");
        assert(src@ =~= plugin_template(plugin_id@, name@, description@));
        PluginSnippet { filename, src }
    }
}

fn has_script_extension(name: &String) -> (r: bool)
    ensures
        r == is_script_name(name@),
{
    let s = name.as_str();
    let n = s.unicode_len();
    if n <= 3 {
        return false;
    }
    let a = s.get_char(n - 3);
    let b = s.get_char(n - 2);
    let c = s.get_char(n - 1);
    let r = a == '.' && b == 'j' && c == 's';
    proof {
        let tail = name@.subrange(n - 3, n as int);
        if r {
            assert(tail =~= seq!['.', 'j', 's']);
        } else {
            assert(tail[0] == a && tail[1] == b && tail[2] == c);
        }
    }
    r
}

/// The file name of the last record of `id` among `records`.
pub open spec fn lookup(records: Seq<(Seq<char>, Seq<char>)>, id: Seq<char>) -> Option<Seq<char>>
    decreases records.len(),
{
    if records.len() == 0 {
        None
    } else if records.last().0 == id {
        Some(records.last().1)
    } else {
        lookup(records.drop_last(), id)
    }
}

/// The records held by two parallel vectors of ids and file names.
pub open spec fn pairs(ids: Seq<String>, files: Seq<String>) -> Seq<(Seq<char>, Seq<char>)> {
    Seq::new(ids.len(), |i: int| (ids[i]@, files[i]@))
}

/// A record of which plugin file registered each plugin id.
pub struct PluginIndex {
    ids: Vec<String>,
    files: Vec<String>,
}

impl PluginIndex {
    pub closed spec fn records(&self) -> Seq<(Seq<char>, Seq<char>)> {
        pairs(self.ids@, self.files@)
    }

    pub closed spec fn wf(&self) -> bool {
        self.ids@.len() == self.files@.len()
    }

    /// The file recorded for a plugin id.
    pub open spec fn file_of(&self, id: Seq<char>) -> Option<Seq<char>> {
        lookup(self.records(), id)
    }

    /// An index that records nothing.
    pub fn new() -> (r: PluginIndex)
        ensures
            r.wf(),
            forall|id: Seq<char>| r.file_of(id) is None,
    {
        let r = PluginIndex { ids: Vec::new(), files: Vec::new() };
        assert(r.records() =~= Seq::empty());
        r
    }

    /// The file recorded for `plugin_id`, if any.
    pub fn get_filename_by_plugin_id(&self, plugin_id: &String) -> (r: Option<String>)
        requires
            self.wf(),
        ensures
            r matches Some(f) ==> self.file_of(plugin_id@) == Some(f@),
            r is None ==> self.file_of(plugin_id@) is None,
    {
        let mut i: usize = self.ids.len();
        assert(self.records().subrange(0, i as int) =~= self.records());
        while i > 0
            invariant
                self.wf(),
                i <= self.ids@.len(),
                lookup(self.records(), plugin_id@) == lookup(
                    self.records().subrange(0, i as int),
                    plugin_id@,
                ),
            decreases i,
        {
            i = i - 1;
            assert(self.records().subrange(0, i + 1).drop_last() =~= self.records().subrange(
                0,
                i as int,
            ));
            if self.ids[i] == *plugin_id {
                return Some(self.files[i].clone());
            }
        }
        None
    }

    /// Records that `plugin_id` was registered by `filename`, replacing an earlier record.
    pub fn insert(&mut self, plugin_id: String, filename: String)
        requires
            old(self).wf(),
        ensures
            final(self).wf(),
            forall|id: Seq<char>|
                #[trigger] final(self).file_of(id) == (if id == plugin_id@ {
                    Some(filename@)
                } else {
                    old(self).file_of(id)
                }),
    {
        let ghost old_records = self.records();
        let ghost entry = (plugin_id@, filename@);
        self.ids.push(plugin_id);
        self.files.push(filename);
        assert(self.records() =~= old_records.push(entry));
        assert(self.records().drop_last() =~= old_records);
    }

    /// Forgets every record.
    pub fn clear(&mut self)
        ensures
            final(self).wf(),
            forall|id: Seq<char>| final(self).file_of(id) is None,
    {
        self.ids = Vec::new();
        self.files = Vec::new();
        assert(self.records() =~= Seq::empty());
    }

    /// Forgets the record of `plugin_id`; the others stay.
    pub fn remove(&mut self, plugin_id: &String)
        requires
            old(self).wf(),
        ensures
            final(self).wf(),
            final(self).file_of(plugin_id@) is None,
            forall|id: Seq<char>|
                id != plugin_id@ ==> #[trigger] final(self).file_of(id) == old(self).file_of(id),
    {
        let ghost old_records = self.records();
        let mut ids: Vec<String> = Vec::new();
        let mut files: Vec<String> = Vec::new();
        let mut i: usize = 0;
        assert(pairs(ids@, files@) =~= Seq::empty());
        while i < self.ids.len()
            invariant
                self.wf(),
                self.records() == old_records,
                i <= self.ids@.len(),
                ids@.len() == files@.len(),
                forall|id: Seq<char>|
                    #[trigger] lookup(pairs(ids@, files@), id) == (if id == plugin_id@ {
                        None
                    } else {
                        lookup(old_records.subrange(0, i as int), id)
                    }),
            decreases self.ids@.len() - i,
        {
            let ghost before = pairs(ids@, files@);
            let ghost rec = old_records[i as int];
            assert(old_records.subrange(0, i + 1).drop_last() =~= old_records.subrange(0, i as int));
            assert(old_records.subrange(0, i + 1).last() == rec);
            let keep = self.ids[i] != *plugin_id;
            if keep {
                ids.push(self.ids[i].clone());
                files.push(self.files[i].clone());
                assert(pairs(ids@, files@) =~= before.push(rec));
                assert(pairs(ids@, files@).drop_last() =~= before);
            }
            assert forall|id: Seq<char>|
                #[trigger] lookup(pairs(ids@, files@), id) == (if id == plugin_id@ {
                    None
                } else {
                    lookup(old_records.subrange(0, i + 1), id)
                }) by {
                assert(lookup(before, id) == (if id == plugin_id@ {
                    None
                } else {
                    lookup(old_records.subrange(0, i as int), id)
                }));
                if !keep {
                    assert(pairs(ids@, files@) == before);
                }
            }
            i = i + 1;
        }
        assert(old_records.subrange(0, i as int) =~= old_records);
        self.ids = ids;
        self.files = files;
    }
}

} // verus!
