use vstd::prelude::*;

verus! {

/// What the application was started to do.
#[derive(Clone, Debug)]
pub enum LaunchMode {
    /// Browse the file system.
    Browse,
    /// Add these files to an archive.
    AddToArchive(Vec<String>),
    /// Extract this archive.
    Extract(String),
}

/// The mathematical value of a `LaunchMode`.
pub enum LaunchModel {
    Browse,
    AddToArchive(Seq<Seq<char>>),
    Extract(Seq<char>),
}

impl View for LaunchMode {
    type V = LaunchModel;

    open spec fn view(&self) -> LaunchModel {
        match self {
            LaunchMode::Browse => LaunchModel::Browse,
            LaunchMode::AddToArchive(files) => LaunchModel::AddToArchive(
                files@.map_values(|s: String| s@),
            ),
            LaunchMode::Extract(path) => LaunchModel::Extract(path@),
        }
    }
}

/// The launch mode that command line `args` asks for; `args[0]` is the
/// program. `--add` adds the remaining arguments to an archive, `--extract`
/// extracts the archive named next, and anything else, or `--extract` with
/// nothing after it, browses.
pub open spec fn launch_mode_of(args: Seq<Seq<char>>) -> LaunchModel {
    if args.len() >= 2 && args[1] == "--add"@ {
        LaunchModel::AddToArchive(args.skip(2))
    } else if args.len() >= 2 && args[1] == "--extract"@ {
        if args.len() >= 3 {
            LaunchModel::Extract(args[2])
        } else {
            LaunchModel::Browse
        }
    } else {
        LaunchModel::Browse
    }
}

/// Reads the launch mode from the command line `args`, program name first.
pub fn parse_args(args: &Vec<String>) -> (r: LaunchMode)
    ensures
        r@ == launch_mode_of(args@.map_values(|s: String| s@)),
        args@.len() >= 3 && args@[1]@ == "--extract"@ ==> r@ == LaunchModel::Extract(args@[2]@),
        args@.len() == 2 && args@[1]@ == "--extract"@ ==> r@ == LaunchModel::Browse,
        args@.len() >= 2 && args@[1]@ == "--add"@ ==> (r matches LaunchMode::AddToArchive(files)
            && files@.len() == args@.len() - 2 && forall|i: int|
            0 <= i < files@.len() ==> (#[trigger] files@[i])@ == args@[i + 2]@),
        args@.len() < 2 ==> r@ == LaunchModel::Browse,
{
    let ghost views = args@.map_values(|s: String| s@);
    if args.len() < 2 {
        return LaunchMode::Browse;
    }
    let add = "--add".to_string();
    let extract = "--extract".to_string();
    proof {
        reveal_strlit("--add");
        reveal_strlit("--extract");
    }
    assert(views[1] == args@[1]@);
    assert("--extract"@ != "--add"@) by {
        assert("--extract"@.len() != "--add"@.len());
    };
    if args[1] == add {
        let mut files: Vec<String> = Vec::new();
        let mut i: usize = 2;
        while i < args.len()
            invariant
                2 <= i <= args@.len(),
                views == args@.map_values(|s: String| s@),
                files@.map_values(|s: String| s@) =~= views.subrange(2, i as int),
            decreases args@.len() - i,
        {
            let c = args[i].clone();
            let ghost before = files@;
            files.push(c);
            assert(files@.map_values(|s: String| s@) =~= before.map_values(|s: String| s@).push(
                views[i as int],
            ));
            assert(views.subrange(2, i + 1) =~= views.subrange(2, i as int).push(views[i as int]));
            i = i + 1;
        }
        assert(views.skip(2) =~= views.subrange(2, args@.len() as int));
        assert forall|k: int| 0 <= k < files@.len() implies (#[trigger] files@[k])@ == args@[k
            + 2]@ by {
            assert(files@.map_values(|s: String| s@)[k] == views.subrange(2, args@.len() as int)[k]);
        };
        LaunchMode::AddToArchive(files)
    } else if args[1] == extract {
        if args.len() >= 3 {
            assert(views[2] == args@[2]@);
            LaunchMode::Extract(args[2].clone())
        } else {
            LaunchMode::Browse
        }
    } else {
        LaunchMode::Browse
    }
}

/// What the command line asks for, stated on the arguments themselves:
/// `--extract` followed by an archive extracts that archive, `--extract`
/// alone browses, `--add` adds every argument after it, in order, and a
/// command line without a mode browses.
pub proof fn lemma_launch_modes(args: Seq<Seq<char>>)
    ensures
        args.len() >= 3 && args[1] == "--extract"@ ==> launch_mode_of(args) == LaunchModel::Extract(
            args[2],
        ),
        args.len() == 2 && args[1] == "--extract"@ ==> launch_mode_of(args) == LaunchModel::Browse,
        args.len() >= 2 && args[1] == "--add"@ ==> (launch_mode_of(args) matches LaunchModel::AddToArchive(
            files,
        ) && files.len() == args.len() - 2 && forall|i: int|
            0 <= i < files.len() ==> #[trigger] files[i] == args[i + 2]),
        args.len() < 2 ==> launch_mode_of(args) == LaunchModel::Browse,
        args.len() >= 2 && args[1] != "--add"@ && args[1] != "--extract"@ ==> launch_mode_of(args)
            == LaunchModel::Browse,
{
    reveal_strlit("--add");
    reveal_strlit("--extract");
    assert("--extract"@ != "--add"@) by {
        assert("--extract"@.len() != "--add"@.len());
    };
    if args.len() >= 2 && args[1] == "--add"@ {
        assert forall|i: int| 0 <= i < args.len() - 2 implies #[trigger] args.skip(2)[i] == args[i
            + 2] by {};
    }
}

} // verus!
