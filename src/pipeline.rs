use vstd::prelude::*;

use crate::error::Error;
use crate::settings::AppSettings;
use crate::webring::{
    all_clear, build_webring_sequence, fault_at, ring_built, url_verdicts, validation_outcome,
    verify_websites, WebringSite,
};
use crate::website::Website;

verus! {

/// Where a run stands once the site list has been validated.
#[derive(Debug)]
pub enum RunStep {
    /// These sites are to be audited; the ones that pass go on to `finish_webring`.
    Audit(Vec<Website>),
    /// The ring is built.
    Ring(Vec<WebringSite>),
}

/// The list passes the validation step: it is skipped, or nothing is wrong.
pub open spec fn validated(ws: Seq<Website>, settings: AppSettings) -> bool {
    settings.skip_verify || all_clear(ws, url_verdicts(ws))
}

/// The end of a run, once the working set of sites is known: no site left is
/// fatal; otherwise the ring is built from them.
pub fn finish_webring(sites: Vec<Website>, settings: &AppSettings) -> (r: Result<Vec<WebringSite>, Error>)
    ensures
        sites@.len() == 0 ==> (r matches Err(e) && e is NoValidSites),
        sites@.len() > 0 ==> (r matches Ok(ring) && ring_built(
            ring@,
            sites@,
            settings.shuffle,
            settings.no_slug,
        )),
{
    if sites.len() == 0 {
        Err(Error::NoValidSites)
    } else {
        Ok(build_webring_sequence(sites, settings))
    }
}

/// The start of a run: validates the list unless told to skip it, then hands
/// the sites to the audit when auditing is on, or else builds the ring.
pub fn begin_webring(websites: Vec<Website>, settings: &AppSettings) -> (r: Result<RunStep, Error>)
    ensures
        !validated(websites@, *settings) ==> (r matches Err(e) && validation_outcome(
            websites@,
            url_verdicts(websites@),
            Err(e),
        )),
        validated(websites@, *settings) && settings.audit ==> (r matches Ok(RunStep::Audit(s))
            && s@ == websites@),
        validated(websites@, *settings) && !settings.audit && websites@.len() == 0 ==> (r matches Err(
            e,
        ) && e is NoValidSites),
        validated(websites@, *settings) && !settings.audit && websites@.len() > 0 ==> (r matches Ok(
            RunStep::Ring(ring),
        ) && ring_built(ring@, websites@, settings.shuffle, settings.no_slug)),
{
    if !settings.skip_verify {
        match verify_websites(websites.as_slice()) {
            Ok(()) => {},
            Err(e) => {
                return Err(e);
            },
        }
    }
    if settings.audit {
        Ok(RunStep::Audit(websites))
    } else {
        match finish_webring(websites, settings) {
            Ok(ring) => Ok(RunStep::Ring(ring)),
            Err(e) => Err(e),
        }
    }
}

/// Unless validation is skipped, a list in which two sites share a slug or a
/// URL does not pass the validation step, so the run stops with the
/// validator's error and builds no ring.
pub proof fn lemma_duplicate_stops_run(ws: Seq<Website>, settings: AppSettings, i: int, j: int)
    requires
        !settings.skip_verify,
        0 <= i < j < ws.len(),
        ws[i].slug@ == ws[j].slug@ || ws[i].url@ == ws[j].url@,
    ensures
        !validated(ws, settings),
{
    let vs = url_verdicts(ws);
    if ws[i].slug@ == ws[j].slug@ {
        assert(exists|k: int| 0 <= k < j && (#[trigger] ws[k]).slug@ == ws[j].slug@);
    } else {
        assert(exists|k: int| 0 <= k < j && (#[trigger] ws[k]).url@ == ws[j].url@);
    }
    assert(fault_at(ws, vs, j) is Some);
}

} // verus!
