//! What holds of the library as a whole: of fingerprints, of the cache, and
//! of whole translations that are driven against a cache directory and a
//! completion service.

use crate::cache::CacheFileView;
use crate::cache::entry_of;
use crate::cache::file_name_of;
use crate::cache::loaded;
use crate::cache::StorageErrorView;
use crate::client::answer_of;
use crate::extract::block_body;
use crate::extract::blocks_from;
use crate::extract::blocks_of;
use crate::extract::extracted;
use crate::extract::is_fence_at;
use crate::extract::lemma_fence_is_next;
use crate::extract::lemma_newline_is_next;
use crate::extract::lemma_next_fence;
use crate::extract::lemma_no_fence_from;
use crate::fingerprint::fingerprint_of;
use crate::json::json_parsed;
use crate::request::default_seed;
use crate::request::InputError;
use crate::request::InputView;
use crate::request::key_material;
use crate::request::limit_bytes;
use crate::request::normalized_prompt;
use crate::request::request_for;
use crate::request::RequestView;
use crate::transpile::ActionView;
use crate::transpile::EventView;
use crate::transpile::file_for;
use crate::transpile::StateView;
use crate::transpile::step;
use crate::transpile::TranspileErrorView;
use crate::transpile::TransportErrorView;
use vstd::bytes::lemma_auto_spec_u32_to_from_le_bytes;
use vstd::bytes::lemma_auto_spec_u64_to_from_le_bytes;
use vstd::bytes::spec_u32_from_le_bytes;
use vstd::bytes::spec_u32_to_le_bytes;
use vstd::bytes::spec_u64_from_le_bytes;
use vstd::bytes::spec_u64_to_le_bytes;
use vstd::prelude::*;
use vstd::utf8::encode_scalar;
use vstd::utf8::encode_utf8_decode_utf8;
use vstd::utf8::encode_utf8;

verus! {

/// A fingerprint lies between zero and the largest `i64`, which it never
/// reaches.
pub proof fn lemma_fingerprint_range(bytes: Seq<u8>)
    ensures
        0 <= fingerprint_of(bytes) < i64::MAX,
{
}

/// Requests with the same model, seed, token limit and prompt text have the
/// same cache key, whenever and wherever it is computed.
pub proof fn lemma_cache_key_deterministic(first: RequestView, second: RequestView)
    requires
        first.model == second.model,
        first.seed == second.seed,
        first.max_output_tokens == second.max_output_tokens,
        first.prompt_text() == second.prompt_text(),
    ensures
        first.cache_key() == second.cache_key(),
{
}

/// No byte of the UTF-8 form of a character is the byte that closes a text in
/// a cache key.
proof fn lemma_scalar_has_no_closing_byte(scalar: u32)
    ensures
        forall|i: int|
            0 <= i < encode_scalar(scalar).len() ==> #[trigger] encode_scalar(scalar)[i] != 0xffu8,
{
    assert(((scalar & 0x7F) as u8) != 0xffu8) by (bit_vector);
    assert((0xC0u8 | ((scalar >> 6) & 0x1F) as u8) != 0xffu8) by (bit_vector);
    assert((0xE0u8 | ((scalar >> 12) & 0x0F) as u8) != 0xffu8) by (bit_vector);
    assert((0xF0u8 | ((scalar >> 18) & 0x7) as u8) != 0xffu8) by (bit_vector);
    assert((0x80u8 | (scalar & 0x3F) as u8) != 0xffu8) by (bit_vector);
    assert((0x80u8 | ((scalar >> 6) & 0x3F) as u8) != 0xffu8) by (bit_vector);
    assert((0x80u8 | ((scalar >> 12) & 0x3F) as u8) != 0xffu8) by (bit_vector);
}

/// No byte of a text in UTF-8 is the byte that closes a text in a cache key.
pub proof fn lemma_text_has_no_closing_byte(text: Seq<char>)
    ensures
        forall|i: int|
            0 <= i < encode_utf8(text).len() ==> #[trigger] encode_utf8(text)[i] != 0xffu8,
    decreases text.len(),
{
    if text.len() > 0 {
        let head = encode_scalar(text[0] as u32);
        let rest = encode_utf8(text.drop_first());
        lemma_scalar_has_no_closing_byte(text[0] as u32);
        lemma_text_has_no_closing_byte(text.drop_first());
        assert(encode_utf8(text) == head + rest);
        assert forall|i: int| 0 <= i < encode_utf8(text).len() implies #[trigger] encode_utf8(
            text,
        )[i] != 0xffu8 by {
            if i < head.len() {
                assert((head + rest)[i] == head[i]);
            } else {
                assert((head + rest)[i] == rest[i - head.len()]);
            }
        }
    }
}

/// A closed text at the head of a sequence of bytes can be read back in one
/// way only: equal sequences start with equal texts, and go on equally.
pub proof fn lemma_closed_text_is_read_back(
    first: Seq<char>,
    first_rest: Seq<u8>,
    second: Seq<char>,
    second_rest: Seq<u8>,
)
    requires
        encode_utf8(first) + seq![0xffu8] + first_rest == encode_utf8(second) + seq![0xffu8]
            + second_rest,
    ensures
        first == second,
        first_rest == second_rest,
{
    let a = encode_utf8(first);
    let b = encode_utf8(second);
    let left = a + seq![0xffu8] + first_rest;
    let right = b + seq![0xffu8] + second_rest;
    lemma_text_has_no_closing_byte(first);
    lemma_text_has_no_closing_byte(second);
    if a.len() < b.len() {
        assert(left[a.len() as int] == 0xffu8);
        assert(right[a.len() as int] == b[a.len() as int]);
        assert(false);
    }
    if b.len() < a.len() {
        assert(right[b.len() as int] == 0xffu8);
        assert(left[b.len() as int] == a[b.len() as int]);
        assert(false);
    }
    assert(a.len() == b.len());
    assert(left.len() == right.len());
    assert(a =~= b) by {
        assert forall|i: int| 0 <= i < a.len() implies a[i] == b[i] by {
            assert(left[i] == a[i]);
            assert(right[i] == b[i]);
        }
    }
    assert(first_rest =~= second_rest) by {
        assert forall|i: int| 0 <= i < first_rest.len() implies first_rest[i] == second_rest[i] by {
            assert(left[a.len() + 1 + i] == first_rest[i]);
            assert(right[b.len() + 1 + i] == second_rest[i]);
        }
    }
    encode_utf8_decode_utf8(first);
    encode_utf8_decode_utf8(second);
}

/// The bytes of a cache key tell the request: requests that differ in model,
/// seed, token limit or prompt text differ in these bytes. Two requests can
/// share a cache key only where the hasher gives two sequences of bytes one
/// digest.
pub proof fn lemma_key_material_tells_the_request(
    first: RequestView,
    second: RequestView,
)
    requires
        key_material(first.model, first.seed, first.max_output_tokens, first.prompt_text())
            == key_material(
            second.model,
            second.seed,
            second.max_output_tokens,
            second.prompt_text(),
        ),
    ensures
        first.model == second.model,
        first.seed == second.seed,
        first.max_output_tokens == second.max_output_tokens,
        first.prompt_text() == second.prompt_text(),
{
    lemma_auto_spec_u64_to_from_le_bytes();
    lemma_auto_spec_u32_to_from_le_bytes();
    let tail = |request: RequestView|
        spec_u64_to_le_bytes(request.seed as u64) + limit_bytes(request.max_output_tokens)
            + encode_utf8(request.prompt_text()) + seq![0xffu8];
    let key = |request: RequestView|
        key_material(
            request.model,
            request.seed,
            request.max_output_tokens,
            request.prompt_text(),
        );
    assert(key(first) =~= encode_utf8(first.model) + seq![0xffu8] + tail(first));
    assert(key(second) =~= encode_utf8(second.model) + seq![0xffu8] + tail(second));
    lemma_closed_text_is_read_back(first.model, tail(first), second.model, tail(second));
    let first_seed = spec_u64_to_le_bytes(first.seed as u64);
    let second_seed = spec_u64_to_le_bytes(second.seed as u64);
    assert(first_seed =~= tail(first).subrange(0, 8));
    assert(second_seed =~= tail(second).subrange(0, 8));
    assert(first.seed as u64 == second.seed as u64) by {
        assert(spec_u64_from_le_bytes(first_seed) == first.seed as u64);
        assert(spec_u64_from_le_bytes(second_seed) == second.seed as u64);
    }
    let x = first.seed;
    let y = second.seed;
    assert(x == y) by (bit_vector)
        requires
            x as u64 == y as u64,
    ;
    let first_limit = limit_bytes(first.max_output_tokens);
    let second_limit = limit_bytes(second.max_output_tokens);
    assert(tail(first)[8] == first_limit[0]);
    assert(tail(second)[8] == second_limit[0]);
    assert(first.max_output_tokens is Some == second.max_output_tokens is Some);
    if first.max_output_tokens is Some {
        let m = first.max_output_tokens->0;
        let n = second.max_output_tokens->0;
        assert(spec_u32_to_le_bytes(m) =~= tail(first).subrange(9, 13));
        assert(spec_u32_to_le_bytes(n) =~= tail(second).subrange(9, 13));
        assert(spec_u32_from_le_bytes(spec_u32_to_le_bytes(m)) == m);
        assert(spec_u32_from_le_bytes(spec_u32_to_le_bytes(n)) == n);
    }
    assert(first.max_output_tokens == second.max_output_tokens);
    let skip = first_seed.len() + first_limit.len();
    assert(tail(first).subrange(skip as int, tail(first).len() as int) =~= encode_utf8(
        first.prompt_text(),
    ) + seq![0xffu8] + Seq::<u8>::empty());
    assert(tail(second).subrange(skip as int, tail(second).len() as int) =~= encode_utf8(
        second.prompt_text(),
    ) + seq![0xffu8] + Seq::<u8>::empty());
    lemma_closed_text_is_read_back(
        first.prompt_text(),
        Seq::<u8>::empty(),
        second.prompt_text(),
        Seq::<u8>::empty(),
    );
}

/// Where the caller names no seed, the seed of the request is the fingerprint
/// of the normalized prompt: it depends on the source alone.
pub proof fn lemma_seed_defaulting(input: InputView, guide: Seq<char>)
    requires
        input.seed is None,
    ensures
        request_for(input, guide).seed == default_seed(
            normalized_prompt(input.dncl_code),
        ),
        0 <= request_for(input, guide).seed < i64::MAX,
{
    lemma_fingerprint_range(encode_utf8(normalized_prompt(input.dncl_code)));
}

/// An answer without a fence is its own code.
pub proof fn lemma_no_fence_unchanged(answer: Seq<char>)
    requires
        forall|i: int| !is_fence_at(answer, i),
    ensures
        blocks_of(answer).len() == 0,
        extracted(answer) == answer,
{
    lemma_next_fence(answer, 0);
}

/// An answer with one fenced block has the body of that block as its code:
/// the block opens at the answer's first fence, its tag ends at the first
/// line break behind that fence, it closes at the first fence behind that
/// line break, and no fence follows.
pub proof fn lemma_one_block(answer: Seq<char>, open: int, line_end: int, close: int)
    requires
        0 <= open,
        open + 3 <= line_end < close,
        is_fence_at(answer, open),
        forall|i: int| 0 <= i < open ==> !is_fence_at(answer, i),
        answer[line_end] == '\n',
        forall|i: int| open + 3 <= i < line_end ==> answer[i] != '\n',
        is_fence_at(answer, close),
        forall|i: int| line_end < i < close ==> !is_fence_at(answer, i),
        forall|i: int| close + 3 <= i ==> !is_fence_at(answer, i),
    ensures
        blocks_of(answer) == seq![block_body(answer, line_end + 1, close)],
        extracted(answer) == block_body(answer, line_end + 1, close),
{
    lemma_fence_is_next(answer, 0, open);
    lemma_newline_is_next(answer, open + 3, line_end);
    lemma_fence_is_next(answer, line_end + 1, close);
    lemma_no_fence_from(answer, close + 3);
    assert(blocks_from(answer, close + 3) == Seq::<Seq<char>>::empty());
    assert(blocks_of(answer) == seq![block_body(answer, line_end + 1, close)]);
}

/// A lookup in a directory that has no file of the name finds nothing, and
/// that is no error.
pub proof fn lemma_missing_entry_is_no_error(files: Seq<CacheFileView>, name: Seq<char>)
    requires
        forall|i: int| 0 <= i < files.len() ==> (#[trigger] files[i]).name != name,
    ensures
        entry_of(files, name) is None,
        loaded(entry_of(files, name)) == Ok::<Option<Seq<char>>, StorageErrorView>(None),
    decreases files.len(),
{
    if files.len() > 0 {
        assert forall|i: int| 0 <= i < files.drop_first().len() implies (
        #[trigger] files.drop_first()[i]).name != name by {
            assert(files.drop_first()[i] == files[i + 1]);
        }
        lemma_missing_entry_is_no_error(files.drop_first(), name);
    }
}

/// A file that was put first in a directory is the one that a lookup of its
/// name finds.
pub proof fn lemma_written_file_is_found(files: Seq<CacheFileView>, file: CacheFileView)
    ensures
        entry_of(seq![file] + files, file.name) == Some(file.state),
{
    assert((seq![file] + files)[0] == file);
}

/// A file of another name, put first in a directory, changes nothing for a
/// lookup: only the files of the name count.
pub proof fn lemma_other_files_do_not_count(
    files: Seq<CacheFileView>,
    file: CacheFileView,
    name: Seq<char>,
)
    requires
        file.name != name,
    ensures
        entry_of(seq![file] + files, name) == entry_of(files, name),
{
    assert((seq![file] + files)[0] == file);
    assert((seq![file] + files).drop_first() == files);
}

/// What a translation is driven against: the files of the cache directory,
/// the credential, what the completion service replies to a call, and whether
/// the directory can be written to.
pub struct World {
    pub files: Seq<CacheFileView>,
    pub credential: Option<Seq<char>>,
    pub reply: Result<Seq<char>, Seq<char>>,
    pub write_error: Option<Seq<char>>,
}

/// How a translation ended: its result and warning, the files of the cache
/// directory afterwards, and the number of calls to the completion service.
pub struct Run {
    pub result: Result<Seq<char>, TranspileErrorView>,
    pub warning: Option<StorageErrorView>,
    pub files: Seq<CacheFileView>,
    pub calls: nat,
}

/// What carrying out `action` in `world` brings: the event for the machine,
/// the files afterwards, and the number of calls that it made. A file that is
/// written comes first in the directory.
pub open spec fn carried_out(world: World, action: ActionView) -> (
    EventView,
    Seq<CacheFileView>,
    nat,
) {
    match action {
        ActionView::ReadCache(_) => (EventView::Directory(world.files), world.files, 0),
        ActionView::ResolveCredential => (
            EventView::Credential(world.credential),
            world.files,
            0,
        ),
        ActionView::Send(_) => (EventView::Reply(world.reply), world.files, 1),
        ActionView::WriteCache(file) => match world.write_error {
            None => (EventView::Stored(Ok(())), seq![file] + world.files, 0),
            Some(reason) => (EventView::Stored(Err(reason)), world.files, 0),
        },
        ActionView::Finish { .. } => (EventView::Stored(Ok(())), world.files, 0),
    }
}

/// Drives the machine from `state` with `event` until it stops, for `turns`
/// steps at most, carrying out in `world` what it asks for.
pub open spec fn driven(
    world: World,
    state: StateView,
    event: EventView,
    calls: nat,
    turns: nat,
) -> Run
    decreases turns,
{
    let (next, action) = step(state, event);
    match action {
        ActionView::Finish { result, warning } => Run {
            result,
            warning,
            files: world.files,
            calls,
        },
        _ => if turns == 0 {
            Run {
                result: Err(TranspileErrorView::OutOfTurn),
                warning: None,
                files: world.files,
                calls,
            }
        } else {
            let (brought, files, made) = carried_out(world, action);
            driven(World { files, ..world }, next, brought, calls + made, (turns - 1) as nat)
        },
    }
}

/// A whole translation of `input` in `world`. Four turns are as many as a
/// translation ever needs before it stops.
pub open spec fn run(world: World, input: InputView, guide: Seq<char>) -> Run {
    driven(world, StateView::Start, EventView::Begin { input, guide }, 0, 4)
}

/// What the cache of `world` holds for the request that is made of `input`.
pub open spec fn cached(world: World, input: InputView, guide: Seq<char>) -> Result<
    Option<Seq<char>>,
    StorageErrorView,
> {
    loaded(
        entry_of(world.files, file_name_of(request_for(input, guide).cache_key())),
    )
}

/// What a whole translation comes to, told in one piece: an empty source and
/// a cache that cannot be read fail at once; an answer in the cache is used
/// as it is; otherwise the service is called, once, if there is a credential,
/// and its answer is kept if the directory can be written to.
pub open spec fn translated(world: World, input: InputView, guide: Seq<char>) -> Run {
    let request = request_for(input, guide);
    let untouched = |result: Result<Seq<char>, TranspileErrorView>, calls: nat|
        Run { result, warning: None, files: world.files, calls };
    if input.dncl_code.len() == 0 {
        untouched(Err(TranspileErrorView::Input(InputError::CodeIsEmpty)), 0)
    } else {
        match cached(world, input, guide) {
            Err(error) => untouched(Err(TranspileErrorView::Storage(error)), 0),
            Ok(Some(answer)) => untouched(Ok(extracted(answer)), 0),
            Ok(None) => match (world.credential, world.reply) {
                (None, _) => untouched(Err(TranspileErrorView::Configuration), 0),
                (Some(_), Err(reason)) => untouched(
                    Err(TranspileErrorView::Transport(TransportErrorView::Network(reason))),
                    1,
                ),
                (Some(_), Ok(reply)) => match json_parsed(encode_utf8(reply)) {
                    None => untouched(
                        Err(TranspileErrorView::Transport(TransportErrorView::Envelope)),
                        1,
                    ),
                    Some(document) => {
                        let answer = answer_of(document);
                        match world.write_error {
                            None => Run {
                                result: Ok(extracted(answer)),
                                warning: None,
                                files: seq![file_for(request, answer)] + world.files,
                                calls: 1,
                            },
                            Some(reason) => Run {
                                result: Ok(extracted(answer)),
                                warning: Some(StorageErrorView::Io(reason)),
                                files: world.files,
                                calls: 1,
                            },
                        }
                    },
                },
            },
        }
    }
}

/// A translation always ends within its turns, and comes to what
/// `translated` tells.
pub proof fn lemma_run_in_full(world: World, input: InputView, guide: Seq<char>)
    ensures
        run(world, input, guide) == translated(world, input, guide),
{
    reveal_with_fuel(driven, 5);
}

/// A translation calls the completion service once at most. It calls it only
/// where the source is not empty, the cache has no answer and there is a
/// credential.
pub proof fn lemma_calls_at_most_once(world: World, input: InputView, guide: Seq<char>)
    ensures
        run(world, input, guide).calls <= 1,
        run(world, input, guide).calls == 1 ==> input.dncl_code.len() > 0 && cached(
            world,
            input,
            guide,
        ) == Ok::<Option<Seq<char>>, StorageErrorView>(None) && world.credential is Some,
{
    reveal_with_fuel(driven, 5);
}

/// After a miss, a call that succeeded and a write that succeeded, a lookup
/// for the same request finds the answer as it was given.
pub proof fn lemma_miss_then_store(
    world: World,
    input: InputView,
    guide: Seq<char>,
    reply: Seq<char>,
)
    requires
        input.dncl_code.len() > 0,
        cached(world, input, guide) == Ok::<Option<Seq<char>>, StorageErrorView>(None),
        world.credential is Some,
        world.reply == Ok::<Seq<char>, Seq<char>>(reply),
        json_parsed(encode_utf8(reply)) is Some,
        world.write_error is None,
    ensures
        run(world, input, guide).calls == 1,
        cached(
            World { files: run(world, input, guide).files, ..world },
            input,
            guide,
        ) == Ok::<Option<Seq<char>>, StorageErrorView>(
            Some(answer_of(json_parsed(encode_utf8(reply))->0)),
        ),
        run(world, input, guide).result == Ok::<Seq<char>, TranspileErrorView>(
            extracted(answer_of(json_parsed(encode_utf8(reply))->0)),
        ),
{
    reveal_with_fuel(driven, 5);
    let request = request_for(input, guide);
    let answer = answer_of(json_parsed(encode_utf8(reply))->0);
    lemma_written_file_is_found(world.files, file_for(request, answer));
}

/// A translation that gave code, and whose answer could be kept, is not
/// repeated: translating the same input again, whatever has become of the
/// credential and the service, calls nothing and gives the same code, from
/// the cache.
pub proof fn lemma_cache_idempotence(
    world: World,
    later: World,
    input: InputView,
    guide: Seq<char>,
)
    requires
        run(world, input, guide).result is Ok,
        world.write_error is None,
        later.files == run(world, input, guide).files,
    ensures
        run(later, input, guide).calls == 0,
        run(world, input, guide).calls + run(later, input, guide).calls <= 1,
        run(later, input, guide).result == run(world, input, guide).result,
{
    reveal_with_fuel(driven, 5);
    let request = request_for(input, guide);
    if cached(world, input, guide) == Ok::<Option<Seq<char>>, StorageErrorView>(None) {
        let reply = world.reply->Ok_0;
        let answer = answer_of(json_parsed(encode_utf8(reply))->0);
        lemma_written_file_is_found(world.files, file_for(request, answer));
    }
}

/// Without a credential nothing is sent and nothing is written, whatever the
/// cache holds.
pub proof fn lemma_no_credential_no_trace(
    world: World,
    input: InputView,
    guide: Seq<char>,
)
    requires
        world.credential is None,
    ensures
        run(world, input, guide).calls == 0,
        run(world, input, guide).files == world.files,
{
    reveal_with_fuel(driven, 5);
}

/// Without a credential a translation that has to ask the service fails as
/// misconfigured. It has to ask where the source is not empty and the cache
/// has no answer.
pub proof fn lemma_credential_absence_is_fatal(
    world: World,
    input: InputView,
    guide: Seq<char>,
)
    requires
        world.credential is None,
        input.dncl_code.len() > 0,
        cached(world, input, guide) == Ok::<Option<Seq<char>>, StorageErrorView>(None),
    ensures
        run(world, input, guide).result == Err::<Seq<char>, TranspileErrorView>(
            TranspileErrorView::Configuration,
        ),
        run(world, input, guide).files == world.files,
        run(world, input, guide).calls == 0,
{
    reveal_with_fuel(driven, 5);
}

} // verus!
