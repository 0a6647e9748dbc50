use crate::address::{
    be_bytes_u32, be_bytes_u64, default_key, keys_equal, program_address,
    try_find_program_address, u32_be_bytes, u64_be_bytes, zero_key, Key,
};
use crate::constants::{MAX_AI_SUMMARY_LENGTH, MAX_SOURCE_REVIEW_IDS, SCENIC_DETAIL_SEED};
use crate::error::{InstructionError, ScenicReviewError};
use crate::events::AiSummaryUpdated;
use crate::lookup::{
    extra_ids, find_extra, find_version, first_position, is_first_position, lemma_first_position, version_ids,
};
use crate::access::check_oracle;
use crate::state::{
    account_exists, Config, ExtraScenicData, ScenicDetail, ScenicIdRegistry, ScenicSpot,
    ScenicVersionRecord,
};
use crate::text::{byte_len, str_bytes, text_len};
use vstd::prelude::*;
use vstd::string::StringSliceAdditionalSpecFns;

verus! {

/// An account handed in as a possible source review: its address, owner and
/// length of data.
pub struct SourceAccount {
    pub key: Key,
    pub owner: Key,
    pub data_len: usize,
}

/// The addresses, in order, of the accounts that hold data of the program.
pub open spec fn program_accounts(accounts: Seq<SourceAccount>, program_id: Key) -> Seq<Key>
    decreases accounts.len(),
{
    if accounts.len() == 0 {
        Seq::empty()
    } else {
        let prev = program_accounts(accounts.drop_last(), program_id);
        let a = accounts.last();
        if a.owner == program_id && a.data_len > 0 {
            prev.push(a.key)
        } else {
            prev
        }
    }
}

/// At most the first twenty of a sequence of addresses.
pub open spec fn first_twenty(keys: Seq<Key>) -> Seq<Key> {
    if keys.len() > MAX_SOURCE_REVIEW_IDS {
        keys.take(MAX_SOURCE_REVIEW_IDS as int)
    } else {
        keys
    }
}

/// The latest-version records after recording `version` for `id`: the
/// first record of `id` is set, or a record is added.
pub open spec fn versions_set(s: Seq<ScenicVersionRecord>, id: u64, version: u32) -> Seq<ScenicVersionRecord> {
    match first_position(version_ids(s), id) {
        Some(i) => s.update(i, ScenicVersionRecord { scenic_id: id, latest_version: version }),
        None => s.push(ScenicVersionRecord { scenic_id: id, latest_version: version }),
    }
}

/// What writing a spot's detail reads besides its arguments.
pub struct UpdateDetailContext {
    pub scenic_spot_key: Key,
    pub oracle: Key,
    pub program_id: Key,
    pub now: i64,
    pub slot: u64,
}

/// A new version of a spot's detail written by the oracle: its summary and
/// hash, the first twenty program accounts handed in as sources, and a new
/// base rating for the spot (also set on the registry's extra data of the
/// spot when there is one); the registry records the version as the
/// spot's latest. Refused to any signer but the configured oracle.
pub fn update_scenic_detail(
    config: &Config,
    scenic_spot: &mut ScenicSpot,
    registry: &mut ScenicIdRegistry,
    scenic_id: u64,
    version: u32,
    ai_summary: String,
    hash: String,
    rating_bits: u64,
    sources: &Vec<SourceAccount>,
    ctx: &UpdateDetailContext,
) -> (r: Result<(ScenicDetail, AiSummaryUpdated), ScenicReviewError>)
    ensures
        r is Err <==> config.oracle != ctx.oracle || old(scenic_spot).id != scenic_id
            || byte_len(ai_summary@) > MAX_AI_SUMMARY_LENGTH,
        vstd::utf8::encode_utf8(ai_summary@).len() > 256 ==> r is Err,
        r matches Ok((d, _)) ==> vstd::utf8::encode_utf8(d.ai_summary@).len() <= 256
            && d.source_review_ids@.len() <= 20,
        r matches Err(e) ==> {
            &&& e == if config.oracle != ctx.oracle {
                ScenicReviewError::InvalidOracle
            } else if old(scenic_spot).id != scenic_id {
                ScenicReviewError::InvalidScenicSpotId
            } else {
                ScenicReviewError::AiSummaryTooLong
            }
            &&& *final(scenic_spot) == *old(scenic_spot)
            &&& *final(registry) == *old(registry)
        },
        r matches Ok((d, ev)) ==> {
            &&& d.scenic_spot_id == scenic_id
            &&& d.scenic_spot_pda == ctx.scenic_spot_key
            &&& d.version == version
            &&& d.ai_summary@ == ai_summary@
            &&& d.hash@ == hash@
            &&& d.update_time == ctx.now
            &&& d.oracle_signature == ctx.oracle
            &&& d.source_review_ids@ == first_twenty(program_accounts(sources@, ctx.program_id))
            &&& final(scenic_spot).base_rating_bits == rating_bits
            &&& final(scenic_spot).id == old(scenic_spot).id
            &&& final(scenic_spot).admin == old(scenic_spot).admin
            &&& final(scenic_spot).name == old(scenic_spot).name
            &&& final(scenic_spot).location == old(scenic_spot).location
            &&& final(scenic_spot).tags == old(scenic_spot).tags
            &&& final(scenic_spot).created_at == old(scenic_spot).created_at
            &&& final(scenic_spot).is_active == old(scenic_spot).is_active
            &&& final(scenic_spot).accepted_review_count == old(scenic_spot).accepted_review_count
            &&& final(scenic_spot).description == old(scenic_spot).description
            &&& final(registry).scenic_latest_detail_version@
                == versions_set(old(registry).scenic_latest_detail_version@, scenic_id, version)
            &&& final(registry).extra_scenic_data@.len() == old(registry).extra_scenic_data@.len()
            &&& forall|j: int| 0 <= j < old(registry).extra_scenic_data@.len() ==> {
                let before = old(registry).extra_scenic_data@[j];
                let after = #[trigger] final(registry).extra_scenic_data@[j];
                &&& after.id == before.id
                &&& after.location == before.location
                &&& after.tags == before.tags
                &&& after.description == before.description
                &&& after.rating_bits == if first_position(extra_ids(old(registry).extra_scenic_data@), scenic_id) == Some(j) {
                    rating_bits
                } else {
                    before.rating_bits
                }
            }
            &&& final(registry).bump == old(registry).bump
            &&& final(registry).next_id == old(registry).next_id
            &&& final(registry).total_count == old(registry).total_count
            &&& final(registry).name_to_id == old(registry).name_to_id
            &&& final(registry).id_to_name == old(registry).id_to_name
            &&& final(registry).scenic_accepted_reviews == old(registry).scenic_accepted_reviews
            &&& old(registry).wf() ==> final(registry).wf()
            &&& ev == (AiSummaryUpdated {
                scenic_spot_id: ctx.scenic_spot_key,
                summary_length: byte_len(ai_summary@) as u32,
                update_slot: ctx.slot,
                timestamp: ctx.now,
            })
        },
{
    if let Err(e) = check_oracle(config, &ctx.oracle) {
        return Err(e);
    }
    if scenic_spot.id != scenic_id {
        return Err(ScenicReviewError::InvalidScenicSpotId);
    }
    let summary_len = text_len(&ai_summary);
    if summary_len > MAX_AI_SUMMARY_LENGTH {
        return Err(ScenicReviewError::AiSummaryTooLong);
    }
    let mut review_ids: Vec<Key> = Vec::new();
    let mut i: usize = 0;
    while i < sources.len()
        invariant
            i <= sources@.len(),
            review_ids@ == first_twenty(program_accounts(sources@.take(i as int), ctx.program_id)),
        decreases sources@.len() - i,
    {
        assert(sources@.take(i + 1).drop_last() =~= sources@.take(i as int));
        let a = &sources[i];
        if keys_equal(&a.owner, &ctx.program_id) && a.data_len > 0 {
            let ghost before = program_accounts(sources@.take(i as int), ctx.program_id);
            let ghost after = before.push(a.key);
            if review_ids.len() < MAX_SOURCE_REVIEW_IDS {
                review_ids.push(a.key);
                assert(review_ids@ =~= first_twenty(after));
            } else {
                assert(after.take(MAX_SOURCE_REVIEW_IDS as int) =~= before.take(MAX_SOURCE_REVIEW_IDS as int));
            }
        }
        i = i + 1;
    }
    assert(sources@.take(sources@.len() as int) =~= sources@);
    let detail = ScenicDetail {
        scenic_spot_id: scenic_id,
        scenic_spot_pda: ctx.scenic_spot_key,
        version,
        ai_summary,
        hash,
        update_time: ctx.now,
        oracle_signature: ctx.oracle,
        source_review_ids: review_ids,
    };
    scenic_spot.base_rating_bits = rating_bits;
    match find_version(&registry.scenic_latest_detail_version, scenic_id) {
        Some(k) => {
            registry.scenic_latest_detail_version.set(k, ScenicVersionRecord { scenic_id, latest_version: version });
        },
        None => {
            registry.scenic_latest_detail_version.push(ScenicVersionRecord { scenic_id, latest_version: version });
        },
    }
    match find_extra(&registry.extra_scenic_data, scenic_id) {
        Some(k) => {
            let e = &registry.extra_scenic_data[k];
            let updated = ExtraScenicData {
                id: e.id,
                location: e.location.clone(),
                tags: e.tags.clone(),
                rating_bits,
                description: e.description.clone(),
            };
            registry.extra_scenic_data.set(k, updated);
        },
        None => {},
    }
    assert(forall|j: int| 0 <= j < registry.extra_scenic_data@.len()
        ==> (#[trigger] registry.extra_scenic_data@[j]).id == old(registry).extra_scenic_data@[j].id);
    assert(old(registry).wf() ==> registry.wf());
    let event = AiSummaryUpdated {
        scenic_spot_id: ctx.scenic_spot_key,
        summary_length: summary_len as u32,
        update_slot: ctx.slot,
        timestamp: ctx.now,
    };
    Ok((detail, event))
}

/// The seeds of the address of a version of a spot's detail.
pub open spec fn detail_seeds(scenic_id: u64, version: u32) -> Seq<Seq<u8>> {
    seq![SCENIC_DETAIL_SEED.spec_bytes(), be_bytes_u64(scenic_id), be_bytes_u32(version)]
}

/// An account handed to the detail query: its lamports and length of data.
pub struct AccountState {
    pub lamports: u64,
    pub data_len: usize,
}

/// The detail account handed to the query: its address, lamports, length of
/// data and the detail its data decodes to, if it decodes to one.
pub struct DetailAccount {
    pub key: Key,
    pub lamports: u64,
    pub data_len: usize,
    pub detail: Option<ScenicDetail>,
}

/// Why the latest detail of a spot cannot be read, checked in this order.
pub open spec fn latest_detail_failure(
    scenic_id: u64,
    spot: AccountState,
    registry: ScenicIdRegistry,
    detail: DetailAccount,
    program_id: Key,
) -> Option<InstructionError> {
    if !(spot.lamports > 0 && spot.data_len != 0) {
        Some(InstructionError::Scenic(ScenicReviewError::ScenicSpotNotFound))
    } else {
        match first_position(version_ids(registry.scenic_latest_detail_version@), scenic_id) {
            None => Some(InstructionError::Scenic(ScenicReviewError::ScenicDetailNotFound)),
            Some(i) => {
                let version = registry.scenic_latest_detail_version@[i].latest_version;
                match program_address(detail_seeds(scenic_id, version), program_id) {
                    None => Some(InstructionError::NoProgramAddress),
                    Some(pda) => if !(detail.lamports > 0 && detail.data_len != 0) {
                        Some(InstructionError::Scenic(ScenicReviewError::ScenicDetailNotFound))
                    } else if detail.key != pda.0 {
                        Some(InstructionError::Scenic(ScenicReviewError::ScenicDetailNotFound))
                    } else if detail.detail is None {
                        Some(InstructionError::AccountDidNotDeserialize)
                    } else {
                        None
                    },
                }
            },
        }
    }
}

/// The latest detail of a spot: the detail account handed in must exist and
/// sit at the address of the latest version the registry records.
pub fn inner_get_scenic_latest_detail(
    scenic_id: u64,
    spot: &AccountState,
    registry: &ScenicIdRegistry,
    detail: DetailAccount,
    program_id: &Key,
) -> (r: Result<ScenicDetail, InstructionError>)
    ensures
        r is Err <==> latest_detail_failure(scenic_id, *spot, *registry, detail, *program_id) is Some,
        r matches Err(e) ==> Some(e) == latest_detail_failure(scenic_id, *spot, *registry, detail, *program_id),
        r matches Ok(d) ==> Some(d) == detail.detail,
{
    if !account_exists(spot.lamports, spot.data_len) {
        return Err(InstructionError::Scenic(ScenicReviewError::ScenicSpotNotFound));
    }
    let version = match find_version(&registry.scenic_latest_detail_version, scenic_id) {
        None => return Err(InstructionError::Scenic(ScenicReviewError::ScenicDetailNotFound)),
        Some(i) => registry.scenic_latest_detail_version[i].latest_version,
    };
    let mut seeds: Vec<Vec<u8>> = Vec::new();
    seeds.push(str_bytes(SCENIC_DETAIL_SEED));
    seeds.push(u64_be_bytes(scenic_id));
    seeds.push(u32_be_bytes(version));
    assert(seeds@.map_values(|s: Vec<u8>| s@) =~= detail_seeds(scenic_id, version));
    let pda = match try_find_program_address(&seeds, program_id) {
        None => return Err(InstructionError::NoProgramAddress),
        Some((pda, _)) => pda,
    };
    if !account_exists(detail.lamports, detail.data_len) {
        return Err(InstructionError::Scenic(ScenicReviewError::ScenicDetailNotFound));
    }
    if !keys_equal(&detail.key, &pda) {
        return Err(InstructionError::Scenic(ScenicReviewError::ScenicDetailNotFound));
    }
    match detail.detail {
        None => Err(InstructionError::AccountDidNotDeserialize),
        Some(d) => Ok(d),
    }
}

/// The empty detail shown for a spot whose latest detail cannot be read.
pub open spec fn is_empty_detail(d: ScenicDetail, scenic_id: u64) -> bool {
    &&& d.scenic_spot_id == scenic_id
    &&& d.scenic_spot_pda == zero_key()
    &&& d.version == 0
    &&& d.ai_summary@ == Seq::<char>::empty()
    &&& d.hash@ == Seq::<char>::empty()
    &&& d.update_time == 0
    &&& d.oracle_signature == zero_key()
    &&& d.source_review_ids@ == Seq::<Key>::empty()
}

/// The latest detail of a spot, or an empty detail for the spot when it
/// cannot be read. The one failure passed on is the want of a program
/// address for the latest version, on which the lookup cannot go on.
pub fn get_scenic_latest_detail(
    scenic_id: u64,
    spot: &AccountState,
    registry: &ScenicIdRegistry,
    detail: DetailAccount,
    program_id: &Key,
) -> (r: Result<ScenicDetail, InstructionError>)
    ensures
        r is Err <==> latest_detail_failure(scenic_id, *spot, *registry, detail, *program_id)
            == Some(InstructionError::NoProgramAddress),
        r matches Err(e) ==> e == InstructionError::NoProgramAddress,
        latest_detail_failure(scenic_id, *spot, *registry, detail, *program_id) is None
            ==> r == Ok::<ScenicDetail, InstructionError>(detail.detail->Some_0),
        latest_detail_failure(scenic_id, *spot, *registry, detail, *program_id) is Some
            ==> (r matches Ok(d) ==> is_empty_detail(d, scenic_id)),
{
    match inner_get_scenic_latest_detail(scenic_id, spot, registry, detail, program_id) {
        Ok(d) => Ok(d),
        Err(InstructionError::NoProgramAddress) => Err(InstructionError::NoProgramAddress),
        Err(_) => Ok(ScenicDetail {
            scenic_spot_id: scenic_id,
            scenic_spot_pda: default_key(),
            version: 0,
            ai_summary: String::new(),
            hash: String::new(),
            update_time: 0,
            oracle_signature: default_key(),
            source_review_ids: Vec::new(),
        }),
    }
}

/// An id that occurs in `ids` has a first position there.
pub proof fn lemma_occurrence_has_position<T>(ids: Seq<T>, id: T, j: int)
    requires
        0 <= j < ids.len(),
        ids[j] == id,
    ensures
        first_position(ids, id) is Some,
    decreases j,
{
    if exists|k: int| 0 <= k < j && ids[k] == id {
        let k = choose|k: int| 0 <= k < j && ids[k] == id;
        lemma_occurrence_has_position(ids, id, k);
    } else {
        lemma_first_position(ids, id, j);
    }
}

/// After the latest version of a spot is set, the registry's first record
/// of the spot holds that version.
pub proof fn lemma_versions_set_latest(s: Seq<ScenicVersionRecord>, id: u64, version: u32)
    ensures
        first_position(version_ids(versions_set(s, id, version)), id) matches Some(i)
            && versions_set(s, id, version)[i].latest_version == version,
{
    let after = versions_set(s, id, version);
    match first_position(version_ids(s), id) {
        Some(i) => {
            assert(is_first_position(version_ids(s), id, i));
            assert forall|j: int| 0 <= j < i implies #[trigger] version_ids(after)[j] != id by {
                assert(version_ids(after)[j] == version_ids(s)[j]);
            }
            assert(is_first_position(version_ids(after), id, i));
            lemma_first_position(version_ids(after), id, i);
        },
        None => {
            assert forall|j: int| 0 <= j < s.len() implies #[trigger] version_ids(after)[j] != id by {
                if version_ids(s)[j] == id {
                    lemma_occurrence_has_position(version_ids(s), id, j);
                }
            }
            assert(is_first_position(version_ids(after), id, s.len() as int));
            lemma_first_position(version_ids(after), id, s.len() as int);
        },
    }
}

} // verus!
