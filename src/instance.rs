//! One launchable instance of a version: the argument assembler and the plan
//! of the artifacts a launch has to synchronise.
use vstd::prelude::*;
use crate::asset_index::AssetIndex;
use crate::directories::{join, join_path, Paths};
use crate::profile::{Argument, Arguments, Library, Profile, RuleValue};
use crate::rules::Host;
use crate::text::{replace_all, replace_str, split_on, split_str, strs};

verus! {

/// A version prepared for launch in one instance directory.
#[derive(Clone, Debug)]
pub struct Instance {
    pub profile: Profile,
    pub asset_index: AssetIndex,
    pub classpath: String,
    pub host: Host,
    pub dir: Paths,
    /// The instance's game directory.
    pub path: String,
    pub assets_dir: String,
    pub natives_dir: String,
    pub jar_path: String,
}

/// The classpath entries of the libraries, in order: the jar of every active
/// library that has one with a path, each followed by a colon.
pub open spec fn classpath_prefix(libraries: Seq<Library>, libraries_dir: Seq<char>, host: Host) -> Seq<char>
    decreases libraries.len(),
{
    if libraries.len() == 0 {
        Seq::empty()
    } else {
        let lib = libraries.last();
        classpath_prefix(libraries.drop_last(), libraries_dir, host) + (match lib.downloads.artifact {
            Some(a) => match a.path {
                Some(p) => if lib.active(host) {
                    join(libraries_dir, p@) + ":"@
                } else {
                    Seq::empty()
                },
                None => Seq::empty(),
            },
            None => Seq::empty(),
        })
    }
}

/// The library jars on the classpath, in order: that of every active library
/// that has one with a path.
pub open spec fn classpath_entries(libraries: Seq<Library>, libraries_dir: Seq<char>, host: Host) -> Seq<Seq<char>>
    decreases libraries.len(),
{
    if libraries.len() == 0 {
        Seq::empty()
    } else {
        let lib = libraries.last();
        let rest = classpath_entries(libraries.drop_last(), libraries_dir, host);
        match lib.downloads.artifact {
            Some(a) => match a.path {
                Some(p) => if lib.active(host) {
                    rest.push(join(libraries_dir, p@))
                } else {
                    rest
                },
                None => rest,
            },
            None => rest,
        }
    }
}

/// Entries each followed by a colon.
pub open spec fn colon_terminated(entries: Seq<Seq<char>>) -> Seq<char>
    decreases entries.len(),
{
    if entries.len() == 0 {
        Seq::empty()
    } else {
        colon_terminated(entries.drop_last()) + entries.last() + ":"@
    }
}

/// A library has a jar at `path` and is active.
pub open spec fn provides_jar(lib: Library, path: Seq<char>, host: Host) -> bool {
    lib.active(host) && (lib.downloads.artifact matches Some(a) && a.path matches Some(p) && p@ == path)
}

/// The classpath's library part is its entries, each followed by a colon; a
/// jar that no active library provides is not among them.
pub proof fn lemma_classpath_entries(libraries: Seq<Library>, libraries_dir: Seq<char>, host: Host, path: Seq<char>)
    ensures
        classpath_prefix(libraries, libraries_dir, host) == colon_terminated(
            classpath_entries(libraries, libraries_dir, host),
        ),
        (forall|k: int| 0 <= k < libraries.len() ==> !provides_jar(#[trigger] libraries[k], path, host)) ==> !classpath_entries(
            libraries,
            libraries_dir,
            host,
        ).contains(join(libraries_dir, path)),
    decreases libraries.len(),
{
    if libraries.len() > 0 {
        let init = libraries.drop_last();
        lemma_classpath_entries(init, libraries_dir, host, path);
        let rest = classpath_entries(init, libraries_dir, host);
        let lib = libraries.last();
        if lib.active(host) && (lib.downloads.artifact matches Some(a) && a.path is Some) {
            let q = lib.downloads.artifact->Some_0.path->Some_0@;
            assert(rest.push(join(libraries_dir, q)).drop_last() =~= rest);
            assert(colon_terminated(rest.push(join(libraries_dir, q))) == colon_terminated(rest) + join(libraries_dir, q) + ":"@);
            assert(colon_terminated(rest) + (join(libraries_dir, q) + ":"@) =~= colon_terminated(rest) + join(libraries_dir, q) + ":"@);
        }
        if forall|k: int| 0 <= k < libraries.len() ==> !provides_jar(#[trigger] libraries[k], path, host) {
            assert forall|k: int| 0 <= k < init.len() implies !provides_jar(#[trigger] init[k], path, host) by {
                assert(init[k] == libraries[k]);
            }
            assert(!provides_jar(libraries[libraries.len() - 1], path, host));
            if lib.active(host) && (lib.downloads.artifact matches Some(a) && a.path is Some) {
                let q = lib.downloads.artifact->Some_0.path->Some_0@;
                assert(q != path);
                let d = libraries_dir + "/"@;
                if join(libraries_dir, q) == join(libraries_dir, path) {
                    assert(join(libraries_dir, q) =~= d + q);
                    assert(join(libraries_dir, path) =~= d + path);
                    assert(q =~= (d + q).subrange(d.len() as int, (d + q).len() as int));
                    assert(path =~= (d + path).subrange(d.len() as int, (d + path).len() as int));
                }
                let full = rest.push(join(libraries_dir, q));
                if full.contains(join(libraries_dir, path)) {
                    let i = choose|i: int| 0 <= i < full.len() && full[i] == join(libraries_dir, path);
                    if i < rest.len() {
                        assert(rest[i] == full[i]);
                    }
                }
            }
        }
    }
}

/// The classpath: the active libraries' jars, then the client jar.
pub open spec fn classpath_of(profile: Profile, dir: Paths, jar_path: Seq<char>, host: Host) -> Seq<char> {
    classpath_prefix(profile.libraries@, dir.libraries@, host) + jar_path
}

/// The classpath of a profile: the active libraries' jars below the libraries
/// directory, each followed by a colon, then the client jar.
pub fn generate_classpath(profile: &Profile, dir: &Paths, jar_path: &String, host: &Host) -> (r: String)
    ensures
        r@ == classpath_of(*profile, *dir, jar_path@, *host),
        r@ == colon_terminated(classpath_entries(profile.libraries@, dir.libraries@, *host)) + jar_path@,
{
    proof {
        lemma_classpath_entries(profile.libraries@, dir.libraries@, *host, Seq::empty());
    }
    let mut classpath = String::new();
    let mut i: usize = 0;
    while i < profile.libraries.len()
        invariant
            i <= profile.libraries@.len(),
            classpath@ == classpath_prefix(profile.libraries@.subrange(0, i as int), dir.libraries@, *host),
        decreases profile.libraries@.len() - i,
    {
        let library = &profile.libraries[i];
        assert(profile.libraries@.subrange(0, i + 1).drop_last() =~= profile.libraries@.subrange(0, i as int));
        if let Some(artifact) = &library.downloads.artifact {
            if let Some(path) = &artifact.path {
                if library.is_active(host) {
                    let entry = join_path(&dir.libraries, path.as_str());
                    classpath.append(entry.as_str());
                    classpath.append(":");
                }
            }
        }
        i = i + 1;
    }
    assert(profile.libraries@.subrange(0, i as int) =~= profile.libraries@);
    classpath.append(jar_path.as_str());
    classpath
}

impl Instance {
    /// Prepares a version for launch in the instance directory `name` on the
    /// given host: the paths of the client jar and natives below the version's
    /// directory, and the classpath.
    pub fn new(name: &String, dir: &Paths, profile: Profile, asset_index: AssetIndex, host: Host) -> (r: Instance)
        ensures
            r.profile == profile,
            r.asset_index == asset_index,
            r.host == host,
            r.dir == *dir,
            r.path@ == join(dir.instances@, name@),
            r.assets_dir@ == dir.assets@,
            r.jar_path@ == join(join(dir.versions@, profile.id@), "client.jar"@),
            r.natives_dir@ == join(join(dir.versions@, profile.id@), "natives"@),
            r.classpath@ == classpath_of(profile, *dir, r.jar_path@, host),
    {
        let path = join_path(&dir.instances, name.as_str());
        let version_dir = join_path(&dir.versions, profile.id.as_str());
        let jar_path = join_path(&version_dir, "client.jar");
        let natives_dir = join_path(&version_dir, "natives");
        let classpath = generate_classpath(&profile, dir, &jar_path, &host);
        let assets_dir = dir.assets.clone();
        Instance {
            profile,
            asset_index,
            classpath,
            host,
            dir: dir.duplicate(),
            path,
            assets_dir,
            natives_dir,
            jar_path,
        }
    }

    /// Prepares a version for launch on the platform this process runs on.
    pub fn for_this_host(name: &String, dir: &Paths, profile: Profile, asset_index: AssetIndex) -> (r: Instance)
        ensures
            r.profile == profile,
            r.path@ == join(dir.instances@, name@),
            r.classpath@ == classpath_of(profile, *dir, r.jar_path@, r.host),
    {
        let host = Host::current();
        Instance::new(name, dir, profile, asset_index, host)
    }

    /// The Java program to launch with: `java` for Java 17, `java8` otherwise.
    pub fn java_command(&self) -> (r: String)
        ensures
            r@ == (if self.profile.java_version.major_version == 17 { "java"@ } else { "java8"@ }),
    {
        if self.profile.java_version.major_version == 17 {
            "java".to_owned()
        } else {
            "java8".to_owned()
        }
    }

    /// An argument template with its placeholders filled in, one after the
    /// other in this order.
    pub open spec fn expand(self, arg: Seq<char>) -> Seq<char> {
        let a = replace_all(arg, "${assets_index_name}"@, self.profile.assets@);
        let a = replace_all(a, "${assets_root}"@, self.assets_dir@);
        let a = replace_all(a, "${classpath}"@, self.classpath@);
        let a = replace_all(a, "${game_directory}"@, self.path@);
        let a = replace_all(a, "${launcher_name}"@, "Copper Launcher"@);
        let a = replace_all(a, "${launcher_version}"@, "v0.1.0"@);
        let a = replace_all(a, "${natives_directory}"@, self.natives_dir@);
        let a = replace_all(a, "${version_name}"@, self.profile.id@);
        replace_all(a, "${version_type}"@, self.profile.version_type@)
    }

    /// The values one argument contributes: a literal always, a rule's values
    /// only when the rule holds.
    pub open spec fn argument_values(self, a: Argument, demo: bool, custom_resolution: bool) -> Seq<Seq<char>> {
        match a {
            Argument::String(v) => seq![self.expand(v@)],
            Argument::Rule(rule) => if rule.holds(self.host, demo, custom_resolution) {
                match rule.value {
                    RuleValue::String(v) => seq![self.expand(v@)],
                    RuleValue::Vec(vs) => vs@.map_values(|v: String| self.expand(v@)),
                }
            } else {
                Seq::empty()
            },
        }
    }

    /// The values a list of arguments contributes, in order.
    pub open spec fn arguments_values(self, s: Seq<Argument>, demo: bool, custom_resolution: bool) -> Seq<Seq<char>>
        decreases s.len(),
    {
        if s.len() == 0 {
            Seq::empty()
        } else {
            self.arguments_values(s.drop_last(), demo, custom_resolution) + self.argument_values(
                s.last(),
                demo,
                custom_resolution,
            )
        }
    }

    /// The game's arguments: the structured list, or the legacy string split
    /// at spaces.
    pub open spec fn game_arguments(self, demo: bool, custom_resolution: bool) -> Seq<Seq<char>> {
        match self.profile.arguments {
            Arguments::NewArguments(a) => self.arguments_values(a.game@, demo, custom_resolution),
            Arguments::OldArguments(s) => split_on(s@, ' ').map_values(|p: Seq<char>| self.expand(p)),
        }
    }

    /// Java's arguments for a whole command line: the structured list, or for
    /// the legacy format the natives directory and the classpath.
    pub open spec fn jvm_arguments(self, demo: bool, custom_resolution: bool) -> Seq<Seq<char>> {
        match self.profile.arguments {
            Arguments::NewArguments(a) => self.arguments_values(a.jvm@, demo, custom_resolution),
            Arguments::OldArguments(_) => seq![
                self.expand("-Djava.library.path=${natives_directory}"@),
                self.expand("-cp"@),
                self.expand("${classpath}"@),
            ],
        }
    }

    /// Fills in the placeholders of one argument and appends it.
    pub fn parse_argument(&self, args: &mut Vec<String>, arg: &str)
        ensures
            strs(final(args)@) == strs(old(args)@).push(self.expand(arg@)),
    {
        proof {
            reveal_strlit("${assets_index_name}");
            reveal_strlit("${assets_root}");
            reveal_strlit("${classpath}");
            reveal_strlit("${game_directory}");
            reveal_strlit("${launcher_name}");
            reveal_strlit("${launcher_version}");
            reveal_strlit("${natives_directory}");
            reveal_strlit("${version_name}");
            reveal_strlit("${version_type}");
        }
        let a = replace_str(arg, "${assets_index_name}", self.profile.assets.as_str());
        let a = replace_str(a.as_str(), "${assets_root}", self.assets_dir.as_str());
        let a = replace_str(a.as_str(), "${classpath}", self.classpath.as_str());
        let a = replace_str(a.as_str(), "${game_directory}", self.path.as_str());
        let a = replace_str(a.as_str(), "${launcher_name}", "Copper Launcher");
        let a = replace_str(a.as_str(), "${launcher_version}", "v0.1.0");
        let a = replace_str(a.as_str(), "${natives_directory}", self.natives_dir.as_str());
        let a = replace_str(a.as_str(), "${version_name}", self.profile.id.as_str());
        let a = replace_str(a.as_str(), "${version_type}", self.profile.version_type.as_str());
        args.push(a);
        assert(strs(args@) =~= strs(old(args)@).push(self.expand(arg@)));
    }

    /// Appends the values of a list of arguments, rules evaluated with the
    /// launch's feature flags.
    pub fn parse_arguments_vec(&self, args: &mut Vec<String>, arguments: &Vec<Argument>, demo: bool, custom_resolution: bool)
        ensures
            strs(final(args)@) == strs(old(args)@) + self.arguments_values(arguments@, demo, custom_resolution),
    {
        let mut i: usize = 0;
        while i < arguments.len()
            invariant
                i <= arguments@.len(),
                strs(args@) == strs(old(args)@) + self.arguments_values(arguments@.subrange(0, i as int), demo, custom_resolution),
            decreases arguments@.len() - i,
        {
            let ghost before = strs(args@);
            assert(arguments@.subrange(0, i + 1).drop_last() =~= arguments@.subrange(0, i as int));
            match &arguments[i] {
                Argument::String(value) => {
                    self.parse_argument(args, value.as_str());
                },
                Argument::Rule(rule) => {
                    if rule.is_true(&self.host, demo, custom_resolution) {
                        match &rule.value {
                            RuleValue::String(value) => {
                                self.parse_argument(args, value.as_str());
                            },
                            RuleValue::Vec(values) => {
                                let mut j: usize = 0;
                                while j < values.len()
                                    invariant
                                        j <= values@.len(),
                                        strs(args@) == before + values@.subrange(0, j as int).map_values(
                                            |v: String| self.expand(v@),
                                        ),
                                    decreases values@.len() - j,
                                {
                                    self.parse_argument(args, values[j].as_str());
                                    assert(values@.subrange(0, j + 1).map_values(|v: String| self.expand(v@))
                                        =~= values@.subrange(0, j as int).map_values(|v: String| self.expand(v@)).push(
                                        self.expand(values@[j as int]@),
                                    ));
                                    j = j + 1;
                                }
                                assert(values@.subrange(0, j as int) =~= values@);
                            },
                        }
                    } else {
                        assert(strs(args@) =~= before + Seq::<Seq<char>>::empty());
                    }
                },
            }
            i = i + 1;
        }
        assert(arguments@.subrange(0, i as int) =~= arguments@);
    }

    /// Appends the main class.
    pub fn add_other_jvm_arguments(&self, args: &mut Vec<String>)
        ensures
            strs(final(args)@) == strs(old(args)@).push(self.profile.main_class@),
    {
        args.push(self.profile.main_class.clone());
        assert(strs(args@) =~= strs(old(args)@).push(self.profile.main_class@));
    }

    /// Appends the legacy game arguments: the string split at spaces, each
    /// piece with its placeholders filled in.
    fn parse_legacy_arguments(&self, args: &mut Vec<String>, arguments: &String)
        ensures
            strs(final(args)@) == strs(old(args)@) + split_on(arguments@, ' ').map_values(|p: Seq<char>| self.expand(p)),
    {
        let pieces = split_str(arguments.as_str(), ' ');
        let ghost before = strs(args@);
        let mut j: usize = 0;
        while j < pieces.len()
            invariant
                j <= pieces@.len(),
                strs(pieces@) == split_on(arguments@, ' '),
                strs(args@) == before + strs(pieces@).subrange(0, j as int).map_values(|p: Seq<char>| self.expand(p)),
            decreases pieces@.len() - j,
        {
            self.parse_argument(args, pieces[j].as_str());
            assert(strs(pieces@).subrange(0, j + 1).map_values(|p: Seq<char>| self.expand(p))
                =~= strs(pieces@).subrange(0, j as int).map_values(|p: Seq<char>| self.expand(p)).push(
                self.expand(pieces@[j as int]@),
            ));
            j = j + 1;
        }
        assert(strs(pieces@).subrange(0, j as int) =~= strs(pieces@));
    }

    /// The whole command line after the program: Java's arguments, the main
    /// class, then the game's arguments.
    pub fn parse_arguments(&self, demo: bool, custom_resolution: bool) -> (r: Vec<String>)
        ensures
            strs(r@) == self.jvm_arguments(demo, custom_resolution) + seq![self.profile.main_class@]
                + self.game_arguments(demo, custom_resolution),
    {
        let mut args: Vec<String> = Vec::new();
        assert(strs(args@) =~= Seq::<Seq<char>>::empty());
        match &self.profile.arguments {
            Arguments::NewArguments(arguments) => {
                self.parse_arguments_vec(&mut args, &arguments.jvm, demo, custom_resolution);
                self.add_other_jvm_arguments(&mut args);
                self.parse_arguments_vec(&mut args, &arguments.game, demo, custom_resolution);
            },
            Arguments::OldArguments(arguments) => {
                self.parse_argument(&mut args, "-Djava.library.path=${natives_directory}");
                self.parse_argument(&mut args, "-cp");
                self.parse_argument(&mut args, "${classpath}");
                self.add_other_jvm_arguments(&mut args);
                self.parse_legacy_arguments(&mut args, arguments);
            },
        }
        args
    }

    /// The game's arguments.
    pub fn parse_game_arguments(&self, demo: bool, custom_resolution: bool) -> (r: Vec<String>)
        ensures
            strs(r@) == self.game_arguments(demo, custom_resolution),
    {
        let mut args: Vec<String> = Vec::new();
        assert(strs(args@) =~= Seq::<Seq<char>>::empty());
        match &self.profile.arguments {
            Arguments::NewArguments(arguments) => {
                self.parse_arguments_vec(&mut args, &arguments.game, demo, custom_resolution);
            },
            Arguments::OldArguments(arguments) => {
                self.parse_legacy_arguments(&mut args, arguments);
            },
        }
        assert(strs(args@) =~= self.game_arguments(demo, custom_resolution));
        args
    }

    /// Java's arguments with both feature flags off, then the main class; for
    /// the legacy format only the natives directory precedes the main class.
    pub fn parse_jvm_arguments(&self) -> (r: Vec<String>)
        ensures
            strs(r@) == (match self.profile.arguments {
                Arguments::NewArguments(a) => self.arguments_values(a.jvm@, false, false),
                Arguments::OldArguments(_) => seq![self.expand("-Djava.library.path=${natives_directory}"@)],
            }) + seq![self.profile.main_class@],
    {
        let mut args: Vec<String> = Vec::new();
        assert(strs(args@) =~= Seq::<Seq<char>>::empty());
        match &self.profile.arguments {
            Arguments::NewArguments(arguments) => {
                self.parse_arguments_vec(&mut args, &arguments.jvm, false, false);
            },
            Arguments::OldArguments(_) => {
                self.parse_argument(&mut args, "-Djava.library.path=${natives_directory}");
            },
        }
        self.add_other_jvm_arguments(&mut args);
        args
    }
}

} // verus!
