//! Properties of the library that span several operations or hold of
//! every input, proved over the specifications that the operations'
//! contracts use.
use crate::adapters::{adapter_for_protocol, video_endpoint_spec, ProtocolAdapter};
use crate::chat::{split_lines, stream_steps, StreamStep};
use crate::assets::favorite_toggled;
use crate::domain::{Asset, AudioRequest, GatewayProfile, GenerationJob, JobStatus};
use vstd::utf8::encode_utf8;
use crate::jobs::{canceled, job_matches, lists_matching, retried, status_name_spec};
use crate::validation::{accepted_media_file, last_dot_segment};
use crate::video::{transcription_form_spec, assembled, field_number, first_present, VideoStatusPayload, RemoteVideoStatus};
use crate::media::removal_spec;
use crate::outside::path_starts_with;
use crate::checks::uuid_text_spec;
use crate::text::starts_with_seq;
use crate::registry::{defaults_set, filed_by_id, is_mock_profile, lookup_answer};
use crate::text::{ascii_lower, ascii_lower_seq, find_from, find_spec, occurs_at};
use vstd::prelude::*;

verus! {

/// A profile that is stored can be read back: after `create(p)` (or
/// `update(p)`), `profile(p.id)` answers `p`.
pub proof fn law_profile_reads_back_write(
    m: Map<Seq<char>, GatewayProfile>,
    p: GatewayProfile,
    r: Option<GatewayProfile>,
)
    ensures
        lookup_answer(m.insert(p.id@, p), p.id@, r) <==> r == Some(p),
{
}

/// Storing a profile leaves every other profile as it was.
pub proof fn law_write_keeps_others(
    m: Map<Seq<char>, GatewayProfile>,
    p: GatewayProfile,
    id: Seq<char>,
)
    requires
        id != p.id@,
        m.contains_key(id),
    ensures
        m.insert(p.id@, p).contains_key(id),
        m.insert(p.id@, p)[id] == m[id],
{
}

/// After `delete(id)`, `profile(id)` answers nothing, unless the registry is
/// then empty and `id` is "mock-default", when it answers the mock profile.
pub proof fn law_deleted_profile_is_gone(
    m: Map<Seq<char>, GatewayProfile>,
    id: Seq<char>,
    r: Option<GatewayProfile>,
)
    requires
        m.dom().finite(),
        lookup_answer(m.remove(id), id, r),
    ensures
        !(id == "mock-default"@ && m.remove(id).dom().len() == 0) ==> r is None,
        (id == "mock-default"@ && m.remove(id).dom().len() == 0) ==> (r matches Some(p)
            && is_mock_profile(p)),
{
}

/// After `set_default(id)` at most one profile is the default, and the
/// profile `id`, when stored, is the default.
pub proof fn law_single_default(m: Map<Seq<char>, GatewayProfile>, id: Seq<char>)
    requires
        filed_by_id(m),
    ensures
        forall|a: Seq<char>, b: Seq<char>|
            #![trigger defaults_set(m, id)[a], defaults_set(m, id)[b]]
            defaults_set(m, id).contains_key(a) && defaults_set(m, id).contains_key(b)
                && defaults_set(m, id)[a].is_default && defaults_set(m, id)[b].is_default ==> a
                == b,
        m.contains_key(id) ==> defaults_set(m, id).contains_key(id) && defaults_set(
            m,
            id,
        )[id].is_default,
        defaults_set(m, id).dom() == m.dom(),
{
    assert(defaults_set(m, id).dom() =~= m.dom());
}

/// `set_default` changes nothing but the default flags.
pub proof fn law_set_default_keeps_fields(m: Map<Seq<char>, GatewayProfile>, id: Seq<char>, k: Seq<
    char,
>)
    requires
        m.contains_key(k),
    ensures
        defaults_set(m, id)[k].id == m[k].id,
        defaults_set(m, id)[k].name == m[k].name,
        defaults_set(m, id)[k].base_url == m[k].base_url,
        defaults_set(m, id)[k].protocol == m[k].protocol,
        defaults_set(m, id)[k].api_key_ref == m[k].api_key_ref,
        defaults_set(m, id)[k].enabled == m[k].enabled,
        defaults_set(m, id)[k].created_at == m[k].created_at,
        defaults_set(m, id)[k].updated_at == m[k].updated_at,
{
}

/// Setting the default twice to the same profile is the same as once.
pub proof fn law_set_default_idempotent(m: Map<Seq<char>, GatewayProfile>, id: Seq<char>)
    ensures
        defaults_set(defaults_set(m, id), id) == defaults_set(m, id),
{
    assert(defaults_set(defaults_set(m, id), id) =~= defaults_set(m, id));
}

/// A canceled job reads back canceled, with every other field as it was.
pub proof fn law_cancel_marks_canceled(m: Map<u128, GenerationJob>, id: u128)
    requires
        m.contains_key(id),
    ensures
        m.insert(id, canceled(m[id]))[id].status == JobStatus::Canceled,
        m.insert(id, canceled(m[id]))[id] == (GenerationJob {
            status: JobStatus::Canceled,
            ..m[id]
        }),
{
}

/// Retrying a job under a new id keeps the retried job and adds a queued copy
/// with no progress and the same request; when the new id names no job yet,
/// every job is kept and the copy is the only addition.
pub proof fn law_retry_adds_queued_copy(m: Map<u128, GenerationJob>, id: u128, fresh: u128)
    requires
        m.contains_key(id),
        fresh != id,
    ensures
        ({
            let after = m.insert(fresh, retried(m[id], fresh));
            &&& after.contains_key(id) && after[id] == m[id]
            &&& after.contains_key(fresh)
            &&& after[fresh].id == fresh
            &&& after[fresh].status == JobStatus::Queued
            &&& after[fresh].progress_bits == 0
            &&& after[fresh].request_json == m[id].request_json
            &&& after[fresh].kind == m[id].kind
            &&& after[fresh].gateway_profile_id == m[id].gateway_profile_id
            &&& !m.contains_key(fresh) ==> {
                &&& after.dom() == m.dom().insert(fresh)
                &&& forall|k: u128| #[trigger] m.contains_key(k) ==> after[k] == m[k]
            }
        }),
{
}

/// ASCII lower-casing twice is lower-casing once.
pub proof fn lemma_ascii_lower_idempotent(s: Seq<char>)
    ensures
        ascii_lower_seq(ascii_lower_seq(s)) == ascii_lower_seq(s),
{
    assert forall|i: int| 0 <= i < s.len() implies ascii_lower(ascii_lower(s[i])) == ascii_lower(
        s[i],
    ) by {
        let c = s[i];
        if 'A' <= c && c <= 'Z' {
            assert(((c as u32) + 32) as char > 'Z');
        }
    }
    assert(ascii_lower_seq(ascii_lower_seq(s)) =~= ascii_lower_seq(s));
}

/// Protocol names are compared without regard to ASCII case: a name and
/// its lower-case form select the same adapter.
pub proof fn law_protocol_case_insensitive(protocol: Seq<char>)
    ensures
        adapter_for_protocol(protocol) == adapter_for_protocol(ascii_lower_seq(protocol)),
{
    lemma_ascii_lower_idempotent(protocol);
}

/// A position that `find_from` answers is an occurrence at or after the
/// start.
pub proof fn lemma_find_from_occurs(s: Seq<char>, pat: Seq<char>, j: int)
    ensures
        find_from(s, pat, j) matches Some(i) ==> j <= i && occurs_at(s, pat, i),
    decreases s.len() + 1 - j,
{
    if j < 0 || j + pat.len() > s.len() {
    } else if occurs_at(s, pat, j) {
    } else {
        lemma_find_from_occurs(s, pat, j + 1);
    }
}

/// Splitting a stream buffer into lines loses nothing: the lines followed by
/// the remainder are the buffer, every line ends with its only '\n', and
/// the remainder holds no '\n'.
pub proof fn law_split_lines_complete(buffer: Seq<char>)
    ensures
        split_lines(buffer).0.flatten() + split_lines(buffer).1 == buffer,
        forall|k: int|
            0 <= k < split_lines(buffer).0.len() ==> (#[trigger] split_lines(buffer).0[k]).len() > 0
                && split_lines(buffer).0[k].last() == '\n',
        find_spec(split_lines(buffer).1, "\n"@) is None,
    decreases buffer.len(),
{
    reveal_strlit("\n");
    lemma_find_from_occurs(buffer, "\n"@, 0);
    match find_spec(buffer, "\n"@) {
        Some(i) => {
            let line = buffer.subrange(0, i + 1);
            let tail = buffer.subrange(i + 1, buffer.len() as int);
            law_split_lines_complete(tail);
            let rest = split_lines(tail);
            assert(buffer.subrange(i, i + 1) == "\n"@);
            assert(buffer[i] == '\n') by {
                assert(buffer.subrange(i, i + 1)[0] == buffer[i]);
            }
            let lines = seq![line] + rest.0;
            assert(lines.first() == line);
            assert(lines.drop_first() =~= rest.0);
            assert(lines.flatten() == line + rest.0.flatten());
            assert(rest.0.flatten() + rest.1 == tail);
            assert(line + rest.0.flatten() + rest.1 == line + (rest.0.flatten() + rest.1));
            assert(line + tail =~= buffer);
            assert forall|k: int| 0 <= k < lines.len() implies (#[trigger] lines[k]).len() > 0
                && lines[k].last() == '\n' by {
                if k > 0 {
                    assert(lines[k] == rest.0[k - 1]);
                }
            }
        },
        None => {
            assert(Seq::<Seq<char>>::empty().flatten() =~= Seq::<char>::empty());
            assert(Seq::<char>::empty() + buffer =~= buffer);
        },
    }
}

/// A stored API key reads back: after `set(r, s)`, `get(r)` answers `s`;
/// after `remove(r)`, it answers nothing.
pub proof fn law_secret_reads_back(m: Map<Seq<char>, String>, reference: Seq<char>, secret: String)
    ensures
        m.insert(reference, secret).contains_key(reference),
        m.insert(reference, secret)[reference] == secret,
        !m.remove(reference).contains_key(reference),
{
}

/// A stored job reads back: after `insert(job)`, `get(job.id)` answers it.
pub proof fn law_job_reads_back(m: Map<u128, GenerationJob>, job: GenerationJob)
    ensures
        m.insert(job.id, job).contains_key(job.id),
        m.insert(job.id, job)[job.id] == job,
{
}

/// Listing without filters lists every job once.
pub proof fn law_unfiltered_list_is_complete(m: Map<u128, GenerationJob>, r: Seq<GenerationJob>)
    requires
        m.dom().finite(),
        lists_matching(m, None, None, r),
    ensures
        r.len() == m.dom().len(),
        forall|k: u128| #[trigger] m.contains_key(k) ==> exists|i: int| 0 <= i < r.len() && r[i] == m[k],
{
    let ks = choose|ks: Seq<u128>|
        {
            &&& ks.no_duplicates()
            &&& ks.len() == r.len()
            &&& forall|i: int|
                0 <= i < ks.len() ==> m.contains_key(#[trigger] ks[i]) && r[i] == m[ks[i]]
            &&& forall|k: u128|
                (m.contains_key(k) && job_matches(m[k], None, None)) <==> #[trigger] ks.contains(k)
        };
    assert(ks.to_set() =~= m.dom()) by {
        assert forall|k: u128| #[trigger] ks.to_set().contains(k) <==> m.dom().contains(k) by {
            assert(job_matches(m[k], None, None));
        }
    }
    ks.unique_seq_to_set();
    assert forall|k: u128| #[trigger] m.contains_key(k) implies exists|i: int|
        0 <= i < r.len() && r[i] == m[k] by {
        assert(job_matches(m[k], None, None));
        assert(ks.contains(k));
        let i = choose|i: int| 0 <= i < ks.len() && ks[i] == k;
        assert(r[i] == m[k]);
    }
}

/// Deleting an asset's files never touches a file outside the media root,
/// nor a mock location.
pub proof fn law_removal_stays_under_root(root: Seq<char>, paths: Seq<Seq<char>>)
    ensures
        forall|i: int|
            0 <= i < removal_spec(root, paths).0.len() ==> path_starts_with(
                #[trigger] removal_spec(root, paths).0[i],
                root,
            ) && !starts_with_seq(removal_spec(root, paths).0[i], "mock://"@),
    decreases paths.len(),
{
    if paths.len() > 0 {
        law_removal_stays_under_root(root, paths.drop_first());
        let rest = removal_spec(root, paths.drop_first());
        let p = paths[0];
        if !starts_with_seq(p, "mock://"@) && path_starts_with(p, root) {
            assert forall|i: int| 0 <= i < removal_spec(root, paths).0.len() implies path_starts_with(
                #[trigger] removal_spec(root, paths).0[i],
                root,
            ) && !starts_with_seq(removal_spec(root, paths).0[i], "mock://"@) by {
                if i > 0 {
                    assert(removal_spec(root, paths).0[i] == rest.0[i - 1]);
                }
            }
        }
    }
}

/// The text of a UUID is 36 characters with hyphens at positions 8, 13, 18
/// and 23 and lower-case hexadecimal digits elsewhere.
pub proof fn law_uuid_text_shape(u: u128)
    ensures
        uuid_text_spec(u).len() == 36,
        uuid_text_spec(u)[8] == '-' && uuid_text_spec(u)[13] == '-' && uuid_text_spec(u)[18] == '-'
            && uuid_text_spec(u)[23] == '-',
        forall|p: int|
            0 <= p < 36 && p != 8 && p != 13 && p != 18 && p != 23 ==> {
                let c = #[trigger] uuid_text_spec(u)[p];
                ('0' <= c && c <= '9') || ('a' <= c && c <= 'f')
            },
{
    assert forall|p: int| 0 <= p < 36 && p != 8 && p != 13 && p != 18 && p != 23 implies {
        let c = #[trigger] uuid_text_spec(u)[p];
        ('0' <= c && c <= '9') || ('a' <= c && c <= 'f')
    } by {
        let k = crate::checks::hex_position(p);
        assert(0 <= k < 32);
        let d = crate::checks::nibble(u, k);
        let sh = (124 - 4 * k) as u128;
        assert(d < 16) by (bit_vector)
            requires
                d == (u >> sh) & 0xf,
        ;
    }
}

/// Flipping an asset's favorite mark twice leaves the store as it was.
pub proof fn law_toggle_favorite_twice_restores(m: Map<Seq<char>, Asset>, id: Seq<char>)
    ensures
        favorite_toggled(favorite_toggled(m, id), id) == m,
{
    if m.contains_key(id) {
        assert(favorite_toggled(favorite_toggled(m, id), id) =~= m);
    }
}

/// A chat stream ends at its first end or error: every step but the last
/// is a piece of the reply.
pub proof fn law_stream_ends_once(lines: Seq<Seq<char>>)
    ensures
        forall|i: int|
            0 <= i < stream_steps(lines).len() - 1 ==> #[trigger] stream_steps(lines)[i] is Delta,
    decreases lines.len(),
{
    if lines.len() > 0 {
        law_stream_ends_once(lines.drop_first());
        let rest = stream_steps(lines.drop_first());
        match crate::chat::line_step(lines[0]) {
            Some(StreamStep::Delta(t)) => {
                assert forall|i: int| 0 <= i < stream_steps(lines).len() - 1 implies #[trigger] stream_steps(
                    lines,
                )[i] is Delta by {
                    if i > 0 {
                        assert(stream_steps(lines)[i] == rest[i - 1]);
                    }
                }
            },
            _ => {},
        }
    }
}

/// The text after the last '.' of a name that ends in '.' and then a
/// '.'-free extension is that extension.
proof fn lemma_extension_after_dot(stem: Seq<char>, ext: Seq<char>)
    requires
        forall|i: int| 0 <= i < ext.len() ==> ext[i] != '.',
    ensures
        last_dot_segment(stem + "."@ + ext) == ext,
    decreases ext.len(),
{
    reveal_strlit(".");
    let name = stem + "."@ + ext;
    if ext.len() == 0 {
        assert(name.last() == '.');
    } else {
        lemma_extension_after_dot(stem, ext.drop_last());
        assert(name.drop_last() =~= stem + "."@ + ext.drop_last());
        assert(name.last() == ext.last());
        assert(ext.drop_last().push(ext.last()) =~= ext);
    }
}

/// Transcription accepts exactly the files whose extension (the text after
/// the last '.'), in ASCII lower case, is mp3, wav, m4a, mp4, mov, webm or
/// ogg.
pub proof fn law_transcription_file_extensions(stem: Seq<char>, ext: Seq<char>)
    requires
        forall|i: int| 0 <= i < ext.len() ==> ext[i] != '.',
    ensures
        ({
            let e = ascii_lower_seq(ext);
            accepted_media_file(stem + "."@ + ext) <==> (e == "mp3"@ || e == "wav"@ || e == "m4a"@
                || e == "mp4"@ || e == "mov"@ || e == "webm"@ || e == "ogg"@)
        }),
{
    reveal_strlit(".");
    let name = stem + "."@ + ext;
    lemma_extension_after_dot(stem, ext);
    assert(name[stem.len() as int] == '.');
    assert(!crate::text::is_white_space(name[stem.len() as int]));
}

/// Every protocol adapter but the NewAPI one creates and polls videos at
/// the endpoint "videos", whatever the model.
pub proof fn law_video_endpoint_outside_newapi(adapter: ProtocolAdapter, model_id: Seq<char>)
    requires
        adapter != ProtocolAdapter::NewApi,
    ensures
        video_endpoint_spec(adapter, model_id) == "videos"@,
{
}

/// Job statuses are named as their variants are: Queued, Running,
/// Succeeded, Failed, Canceled, Stopped.
pub proof fn law_status_names()
    ensures
        status_name_spec(JobStatus::Queued) == "Queued"@,
        status_name_spec(JobStatus::Running) == "Running"@,
        status_name_spec(JobStatus::Succeeded) == "Succeeded"@,
        status_name_spec(JobStatus::Failed) == "Failed"@,
        status_name_spec(JobStatus::Canceled) == "Canceled"@,
        status_name_spec(JobStatus::Stopped) == "Stopped"@,
{
}

/// A status filter written in lower case selects every job of that status:
/// "queued", "running", "succeeded", "failed", "canceled", "stopped".
pub proof fn law_lower_case_status_filter(job: GenerationJob)
    ensures
        job.status == JobStatus::Queued ==> job_matches(job, None, Some("queued"@)),
        job.status == JobStatus::Running ==> job_matches(job, None, Some("running"@)),
        job.status == JobStatus::Succeeded ==> job_matches(job, None, Some("succeeded"@)),
        job.status == JobStatus::Failed ==> job_matches(job, None, Some("failed"@)),
        job.status == JobStatus::Canceled ==> job_matches(job, None, Some("canceled"@)),
        job.status == JobStatus::Stopped ==> job_matches(job, None, Some("stopped"@)),
{
    reveal_strlit("Queued");
    reveal_strlit("queued");
    reveal_strlit("Running");
    reveal_strlit("running");
    reveal_strlit("Succeeded");
    reveal_strlit("succeeded");
    reveal_strlit("Failed");
    reveal_strlit("failed");
    reveal_strlit("Canceled");
    reveal_strlit("canceled");
    reveal_strlit("Stopped");
    reveal_strlit("stopped");
}

/// A video status document without a progress number reports full
/// progress (the bit pattern of `100.0f32`) once its lower-cased status is
/// "completed" or "succeeded".
pub proof fn law_finished_video_reports_full_progress(
    payload: VideoStatusPayload,
    remote_id: Seq<char>,
    status: Seq<char>,
    r: RemoteVideoStatus,
)
    requires
        assembled(payload, remote_id, status, r),
        field_number(first_present(payload.progress_fields@)) is None,
        status == "completed"@ || status == "succeeded"@,
    ensures
        r.progress_bits == 0x42C8_0000u32,
{
}

/// The UTF-8 encoding of two texts one after the other is their encodings
/// one after the other.
proof fn lemma_encode_utf8_concat(a: Seq<char>, b: Seq<char>)
    ensures
        encode_utf8(a + b) == encode_utf8(a) + encode_utf8(b),
    decreases a.len(),
{
    if a.len() == 0 {
        assert(a + b =~= b);
        assert(encode_utf8(a) =~= Seq::<u8>::empty());
        assert(encode_utf8(a) + encode_utf8(b) =~= encode_utf8(b));
    } else {
        lemma_encode_utf8_concat(a.drop_first(), b);
        assert((a + b).drop_first() =~= a.drop_first() + b);
        assert((a + b)[0] == a[0]);
        assert(encode_utf8(a + b) == vstd::utf8::encode_scalar(a[0] as u32) + encode_utf8(
            a.drop_first() + b,
        ));
        assert(encode_utf8(a + b) =~= encode_utf8(a) + encode_utf8(b));
    }
}

/// When a transcription request names its source file, the file part of
/// its multipart body carries that name: the body holds the encoding of
/// `filename=\"` followed by the name and `\"`.
pub proof fn law_transcription_form_names_the_file(
    boundary: Seq<char>,
    request: AudioRequest,
    bytes: Seq<u8>,
)
    requires
        request.source_file_name is Some,
    ensures
        ({
            let part = encode_utf8("filename=\\\""@ + request.source_file_name->Some_0@ + "\\\""@);
            let body = transcription_form_spec(boundary, request, bytes);
            exists|i: int|
                0 <= i && i + part.len() <= body.len() && #[trigger] body.subrange(i, i + part.len())
                    == part
        }),
{
    let n = request.source_file_name->Some_0@;
    let head = "\\r\\nContent-Disposition: form-data; name=\\\"file\\\"; filename=\\\""@;
    let tail = "\\\"\\r\\nContent-Type: application/octet-stream\\r\\n\\r\\n"@;
    let opening = "filename=\\\""@;
    let closing = "\\\""@;
    reveal_strlit("\\r\\nContent-Disposition: form-data; name=\\\"file\\\"; filename=\\\"");
    reveal_strlit("\\\"\\r\\nContent-Type: application/octet-stream\\r\\n\\r\\n");
    reveal_strlit("filename=\\\"");
    reveal_strlit("\\\"");
    let head0 = head.subrange(0, head.len() - opening.len());
    assert(head =~= head0 + opening);
    let tail1 = tail.subrange(closing.len() as int, tail.len() as int);
    assert(tail =~= closing + tail1);
    let fields = crate::video::transcription_field_text(boundary, "model"@, request.model_id@)
        + crate::video::transcription_field_text(
        boundary,
        "response_format"@,
        crate::outside::unicode_lowercase(request.format@),
    ) + match request.language {
        Some(l) => crate::video::transcription_field_text(boundary, "language"@, l@),
        None => Seq::<char>::empty(),
    };
    let before = fields + "--"@ + boundary + head0;
    let middle = opening + n + closing;
    let text = fields + "--"@ + boundary + head + n + tail;
    assert(text =~= before + middle + tail1);
    lemma_encode_utf8_concat(before + middle, tail1);
    lemma_encode_utf8_concat(before, middle);
    let body = transcription_form_spec(boundary, request, bytes);
    let part = encode_utf8(middle);
    let i = encode_utf8(before).len() as int;
    assert(body == encode_utf8(text) + bytes + encode_utf8(
        "\\r\\n--"@ + boundary + "--\\r\\n"@,
    ));
    assert(body.subrange(i, i + part.len()) =~= part);
}

} // verus!
