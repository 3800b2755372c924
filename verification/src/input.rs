//! Which author list to read, and what is kept of it.
use vstd::prelude::*;

use crate::error::Error;
use crate::model::PreScholar;

verus! {

/// The author list read where none is named on the command line.
pub const DEFAULT_AUTHOR_LIST: &'static str = "authorlist.csv";

/// The author list named on the command line: the first argument after the
/// program's name, or `ReadArgs` where there is none.
pub fn retrieve_list_from_input(args: &Vec<String>) -> (r: Result<String, Error>)
    ensures
        args.len() > 1 ==> (r matches Ok(path) && path@ == args@[1]@),
        args.len() <= 1 ==> r matches Err(Error::ReadArgs),
{
    if args.len() > 1 {
        let first_arg = args[1].clone();
        Ok(first_arg)
    } else {
        Err(Error::ReadArgs)
    }
}

/// The path of the author list to read: the one named on the command line, or
/// `authorlist.csv`.
pub fn author_list_path(args: &Vec<String>) -> (r: String)
    ensures
        r@ == (if args.len() > 1 {
            args@[1]@
        } else {
            DEFAULT_AUTHOR_LIST@
        }),
{
    match retrieve_list_from_input(args) {
        Ok(path) => path,
        Err(_) => String::from_str(DEFAULT_AUTHOR_LIST),
    }
}

/// The entries of the author list that could be read, in order.
pub open spec fn parsed_records(records: Seq<Option<PreScholar>>) -> Seq<PreScholar>
    decreases records.len(),
{
    if records.len() == 0 {
        Seq::empty()
    } else {
        (match records[0] {
            Some(p) => seq![p],
            None => Seq::empty(),
        }) + parsed_records(records.drop_first())
    }
}

/// Keeps the entries of the author list that could be read, in order, and drops
/// the others.
pub fn keep_parsed_records(records: Vec<Option<PreScholar>>) -> (r: Vec<PreScholar>)
    ensures
        r@ == parsed_records(records@),
{
    let mut rest = records;
    let mut kept: Vec<PreScholar> = Vec::new();
    while rest.len() > 0
        invariant
            kept@ + parsed_records(rest@) == parsed_records(records@),
        decreases rest.len(),
    {
        let ghost before = rest@;
        let first = rest.remove(0);
        assert(rest@ =~= before.drop_first());
        match first {
            Some(p) => {
                kept.push(p);
            },
            None => {},
        }
        assert(kept@ + parsed_records(rest@) =~= parsed_records(records@));
    }
    assert(kept@ + parsed_records(rest@) =~= kept@);
    kept
}

} // verus!
