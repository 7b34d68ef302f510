//! Running inside a snap: where the AWS credentials file really is.
use vstd::prelude::*;
use crate::text::{join_path, join_path_spec, opt_string_view};

verus! {

/// Whether the program runs in a snap, and the user's real home directory
/// when the snap reports it. `snap_name_set` says whether `SNAP_NAME` is
/// set, `snap_real_home` is the value of `SNAP_REAL_HOME`.
pub fn check_in_snap(snap_name_set: bool, snap_real_home: Option<String>) -> (r: (bool, Option<String>))
    ensures
        r.0 == snap_name_set,
        opt_string_view(r.1) == if snap_name_set {
            opt_string_view(snap_real_home)
        } else {
            None
        },
{
    if snap_name_set {
        match snap_real_home {
            Some(home) => (true, Some(home)),
            None => (true, None),
        }
    } else {
        (false, None)
    }
}

/// `<home>/.aws/credentials`.
pub open spec fn credentials_path_spec(home: Seq<char>) -> Seq<char> {
    join_path_spec(join_path_spec(home, ".aws"@), "credentials"@)
}

/// The credentials file sits in the `.aws` directory of the home
/// directory: `<home>/.aws/credentials`, with one `/` after the home.
pub proof fn law_credentials_path(home: Seq<char>)
    requires
        home.len() > 0,
    ensures
        home.last() != '/' ==> credentials_path_spec(home) == home + "/.aws/credentials"@,
        home.last() == '/' ==> credentials_path_spec(home) == home + ".aws/credentials"@,
{
    reveal_strlit("/.aws/credentials");
    reveal_strlit(".aws/credentials");
    reveal_strlit(".aws");
    reveal_strlit("credentials");
    let aws = join_path_spec(home, ".aws"@);
    assert(aws.len() > 0 && aws.last() == 's');
    if home.last() != '/' {
        assert(credentials_path_spec(home) =~= home + "/.aws/credentials"@);
    } else {
        assert(credentials_path_spec(home) =~= home + ".aws/credentials"@);
    }
}

/// The credentials file to point the AWS client at, if any: only when
/// `AWS_SHARED_CREDENTIALS_FILE` is not set already and the program runs in
/// a snap that reports the real home directory. The program uses it when
/// the file exists.
pub fn snap_credentials_file(shared_file_set: bool, in_snap: bool, home: Option<String>) -> (r: Option<
    String,
>)
    ensures
        opt_string_view(r) == if !shared_file_set && in_snap {
            match home {
                Some(h) => Some(credentials_path_spec(h@)),
                None => None,
            }
        } else {
            None
        },
{
    if shared_file_set || !in_snap {
        return None;
    }
    match home {
        Some(h) => Some(join_path(join_path(h, ".aws"), "credentials")),
        None => None,
    }
}

} // verus!
