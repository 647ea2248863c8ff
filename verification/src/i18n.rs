//! Internationalization: the translated texts of the bot and their lookup.

use vstd::prelude::*;

verus! {

/// The English (United States) translations, as (key, text) pairs.
pub open spec fn en_us_table() -> Seq<(&'static str, &'static str)> {
    seq![
        ("generic.embed_footer", "Hydrogen by Nashira Deer"),
        ("error.unknown", "An unknown error has happened!"),
        ("error.unknown_voice_state", "I can't determine your voice state, check my permissions, or if you're in a voice chat."),
        ("error.cant_connect", "I can't join your voice channel. Check if I have permission to access it."),
        ("error.not_in_voice_chat", "You can't control the music player from outside the voice channel."),
        ("error.player_exists", "There's already a music player in another voice channel."),
        ("error.player_not_exists", "There's no music player on this server."),
        ("error.empty_queue", "There are no songs in the queue."),
        ("error.not_in_guild", "You can't use this command outside a server."),
        ("play.name", "play"),
        ("play.description", "Request a song to play, adding it to the queue or playing immediately if empty."),
        ("play.query_name", "query"),
        ("play.query_description", "A song or playlist URL, or a search term."),
        ("play.embed_title", "Enqueuing/Playing songs"),
        ("play.play_single", "Playing: **{name}** by **{author}**."),
        ("play.play_single_url", "Playing: [**{name}**]({url}) by **{author}**."),
        ("play.play_multi", "**{count}** songs from your playlist have been queued, **{name}** from **{author}** has been selected to play now."),
        ("play.play_multi_url", "**{count}** songs from your playlist have been queued, [**{name}**]({url}) from **{author}** has been selected to play now."),
        ("play.enqueue_single", "**{name}** by **{author}** has been added to the queue."),
        ("play.enqueue_single_url", "[**{name}**]({url}) by **{author}** has been added to the queue."),
        ("play.enqueue_multi", "**{count}** songs from your playlist have been queued."),
        ("play.not_found", "I can't find the requested song."),
        ("play.truncated", "You can't add more songs to the queue as it's already at the allowed limit. Please remove some songs before trying again."),
        ("play.truncated_warn", "**Warning: I need to exclude some songs from your playlist because it exceeds the allowed limit.**"),
        ("player.empty", "_There's nothing currently playing._"),
        ("player.timeout", "There's no one else connected to me in the voice chat. I will leave in {time} seconds."),
        ("join.name", "join"),
        ("join.description", "Make me join your voice channel without playing anything."),
        ("join.embed_title", "Joining the voice channel"),
        ("join.joined", "I have joined your voice channel, and now you can request any music using {play}."),
        ("stop.embed_title", "Stopping the music player"),
        ("stop.stopped", "I'm leaving the voice channel. Hope to see you soon."),
        ("loop.embed_title", "Looping the queue"),
        ("loop.looping", "Queue's loop mode has changed to **{loop}**."),
        ("loop.autostart", "Normal"),
        ("loop.no_autostart", "Normal without auto-playing"),
        ("loop.music", "Repeat Song"),
        ("loop.queue", "Repeat Queue"),
        ("loop.random", "Next Random Song"),
        ("pause.embed_title", "Pause/Resume the Music Player"),
        ("pause.paused", "You have paused the music player."),
        ("pause.resumed", "You have resumed the music player."),
        ("skip.embed_title", "Skipping to the next song"),
        ("skip.skipping", "Skipping to the song **{name}** by **{author}**."),
        ("skip.skipping_url", "Skipping to the song [**{name}**]({url}) by **{author}**."),
        ("prev.embed_title", "Backing to the previous song"),
        ("prev.returning", "Backing to the song **{name}** by **{author}**."),
        ("prev.returning_url", "Backing to the song [**{name}**]({url}) by **{author}**."),
        ("seek.name", "seek"),
        ("seek.description", "Seek for the time in the current song playing."),
        ("seek.time_name", "time"),
        ("seek.time_description", "Time in seconds or a supported syntax."),
        ("seek.embed_title", "Seeking song time"),
        ("seek.invalid_syntax", "Invalid time time syntax. You can use numbers as seconds or suffix them with `m` to be minutes or `h` to be hours. You can also use `00:00` or `00:00:00` to set the hours."),
        ("seek.seeking", "**{name}**\n{author}\n``{current}/{total}``\n{progress}"),
        ("seek.seeking_url", "[**{name}**]({url})\n{author}\n``{current}/{total}``\n{progress}"),
    ]
}

/// The Brazilian Portuguese translations, as (key, text) pairs.
pub open spec fn pt_br_table() -> Seq<(&'static str, &'static str)> {
    seq![
        ("error.unknown", "Um erro estranho ocorreu!"),
        ("error.unknown_voice_state", "Eu não pude determinar seu estado de voz, cheque minhas permissões, ou se você está em um chat de voz."),
        ("error.cant_connect", "Eu não pude entrar no seu chat de voz. Cheque se eu tenho permissões para acessar ele."),
        ("error.not_in_voice_chat", "Você não pode controlar o tocador de música de fora do chat de voz."),
        ("error.player_exists", "Já existe um tocador de música em um outro chat de voz."),
        ("error.player_not_exists", "Não tem um tocador de música nesse servidor."),
        ("error.empty_queue", "Não há músicas na fila."),
        ("error.not_in_guild", "Você não pode usar esse comando fora de um servidor."),
        ("play.name", "tocar"),
        ("play.description", "Pede para uma música ser tocada, enfileirando ela na fila ou tocando imediatamente se vazio."),
        ("play.query_name", "pesquisa"),
        ("play.query_description", "Uma música ou URL de uma playlist, ou um termo de pesquisa."),
        ("play.play_single", "Tocando: **{0}** by **{1}**."),
        ("play.play_single_url", "Tocando: [**{0}**](<{2}>) por **{1}**."),
        ("play.play_multi", "**{2}** músicas de sua playlist foram enfileirados, **{0}** por **{1}** foi selecionada para tocar agora."),
        ("play.play_multi_url", "**{2}** músicas de sua playlist foram enfileirados, [**{0}**](<{3}>) por **{1}** foi selecionada para tocar agora."),
        ("play.enqueue_single", "**{0}** por **{1}** foi adicionado na fila."),
        ("play.enqueue_single_url", "[**{0}**](<{2}>) por **{1}** foi adicionado na fila."),
        ("play.enqueue_multi", "**{0}** músicas da sua playlist foram enfileirados."),
        ("play.not_found", "Eu não pude encontrar a música solicitada."),
        ("play.truncated", "Você não pode adicionar mais músicas na queue uma vez que ela já esteja no limite permitido. Por favor remova umas algumas músicas antes de tentar de novo."),
        ("play.truncated_warn", "**Aviso: Eu preciso ignorar algumas músicas da sua playlist porque ela maior que o limite permitido.**"),
        ("player.empty", "_Atualmente não estou tocando nada._"),
        ("player.timeout", "Não há mais ninguém conectado no chat de voz. Eu estarei saindo em {0} segundos."),
        ("join.name", "entrar"),
        ("join.description", "Me faça entrar no chat de voz sem tocar nada."),
        ("join.joined", "Eu entrei no seu chat de voz, e agora você pode pedir qualquer música usando {0}."),
        ("stop.stopped", "Eu estou saindo do chat de voz. Espero te ver em breve."),
        ("loop.looping", "A repetição da fila foi alterado para **{0}**."),
        ("loop.autostart", "Normal"),
        ("loop.no_autostart", "Normal sem auto-reprodução"),
        ("loop.music", "Repetir Música"),
        ("loop.queue", "Repetir Fila"),
        ("loop.random", "Próxima música aleatória"),
        ("pause.paused", "Você pausou o tocador de música."),
        ("pause.resumed", "Você resumiu o tocador de música."),
        ("skip.skipping", "Pulando para a música **{0}** por **{1}**."),
        ("skip.skipping_url", "Pulando para a música [**{0}**](<{2}>) por **{1}**."),
        ("prev.returning", "Voltando para a música **{0}** por **{1}**."),
        ("prev.returning_url", "Voltando para a música [**{0}**](<{2}>) por **{1}**."),
        ("seek.name", "procurar"),
        ("seek.description", "Procura pelo tempo na música tocando atualmente."),
        ("seek.time_name", "tempo"),
        ("seek.time_description", "Tempo em segundos ou sintaxe suportada."),
        ("seek.invalid_syntax", "Sintaxe de tempo inválida. Você pode usar números como segundos ou sufixa-los com `m` para minutos ou `h` para horas. Você também pode usar `00:00` ou `00:00:00` para definir as horas."),
        ("seek.seeking", "**{0}**\n{1}\n``{2}/{3}``\n{4}"),
        ("seek.seeking_url", "[**{0}**](<{5}>)\n{1}\n``{2}/{3}``\n{4}"),
    ]
}

/// The English (United States) translations.
pub fn en_us_translations() -> (r: Vec<(&'static str, &'static str)>)
    ensures
        r@ == en_us_table(),
{
    vec![
        ("generic.embed_footer", "Hydrogen by Nashira Deer"),
        ("error.unknown", "An unknown error has happened!"),
        ("error.unknown_voice_state", "I can't determine your voice state, check my permissions, or if you're in a voice chat."),
        ("error.cant_connect", "I can't join your voice channel. Check if I have permission to access it."),
        ("error.not_in_voice_chat", "You can't control the music player from outside the voice channel."),
        ("error.player_exists", "There's already a music player in another voice channel."),
        ("error.player_not_exists", "There's no music player on this server."),
        ("error.empty_queue", "There are no songs in the queue."),
        ("error.not_in_guild", "You can't use this command outside a server."),
        ("play.name", "play"),
        ("play.description", "Request a song to play, adding it to the queue or playing immediately if empty."),
        ("play.query_name", "query"),
        ("play.query_description", "A song or playlist URL, or a search term."),
        ("play.embed_title", "Enqueuing/Playing songs"),
        ("play.play_single", "Playing: **{name}** by **{author}**."),
        ("play.play_single_url", "Playing: [**{name}**]({url}) by **{author}**."),
        ("play.play_multi", "**{count}** songs from your playlist have been queued, **{name}** from **{author}** has been selected to play now."),
        ("play.play_multi_url", "**{count}** songs from your playlist have been queued, [**{name}**]({url}) from **{author}** has been selected to play now."),
        ("play.enqueue_single", "**{name}** by **{author}** has been added to the queue."),
        ("play.enqueue_single_url", "[**{name}**]({url}) by **{author}** has been added to the queue."),
        ("play.enqueue_multi", "**{count}** songs from your playlist have been queued."),
        ("play.not_found", "I can't find the requested song."),
        ("play.truncated", "You can't add more songs to the queue as it's already at the allowed limit. Please remove some songs before trying again."),
        ("play.truncated_warn", "**Warning: I need to exclude some songs from your playlist because it exceeds the allowed limit.**"),
        ("player.empty", "_There's nothing currently playing._"),
        ("player.timeout", "There's no one else connected to me in the voice chat. I will leave in {time} seconds."),
        ("join.name", "join"),
        ("join.description", "Make me join your voice channel without playing anything."),
        ("join.embed_title", "Joining the voice channel"),
        ("join.joined", "I have joined your voice channel, and now you can request any music using {play}."),
        ("stop.embed_title", "Stopping the music player"),
        ("stop.stopped", "I'm leaving the voice channel. Hope to see you soon."),
        ("loop.embed_title", "Looping the queue"),
        ("loop.looping", "Queue's loop mode has changed to **{loop}**."),
        ("loop.autostart", "Normal"),
        ("loop.no_autostart", "Normal without auto-playing"),
        ("loop.music", "Repeat Song"),
        ("loop.queue", "Repeat Queue"),
        ("loop.random", "Next Random Song"),
        ("pause.embed_title", "Pause/Resume the Music Player"),
        ("pause.paused", "You have paused the music player."),
        ("pause.resumed", "You have resumed the music player."),
        ("skip.embed_title", "Skipping to the next song"),
        ("skip.skipping", "Skipping to the song **{name}** by **{author}**."),
        ("skip.skipping_url", "Skipping to the song [**{name}**]({url}) by **{author}**."),
        ("prev.embed_title", "Backing to the previous song"),
        ("prev.returning", "Backing to the song **{name}** by **{author}**."),
        ("prev.returning_url", "Backing to the song [**{name}**]({url}) by **{author}**."),
        ("seek.name", "seek"),
        ("seek.description", "Seek for the time in the current song playing."),
        ("seek.time_name", "time"),
        ("seek.time_description", "Time in seconds or a supported syntax."),
        ("seek.embed_title", "Seeking song time"),
        ("seek.invalid_syntax", "Invalid time time syntax. You can use numbers as seconds or suffix them with `m` to be minutes or `h` to be hours. You can also use `00:00` or `00:00:00` to set the hours."),
        ("seek.seeking", "**{name}**\n{author}\n``{current}/{total}``\n{progress}"),
        ("seek.seeking_url", "[**{name}**]({url})\n{author}\n``{current}/{total}``\n{progress}"),
    ]
}

/// The Brazilian Portuguese translations.
pub fn pt_br_translations() -> (r: Vec<(&'static str, &'static str)>)
    ensures
        r@ == pt_br_table(),
{
    vec![
        ("error.unknown", "Um erro estranho ocorreu!"),
        ("error.unknown_voice_state", "Eu não pude determinar seu estado de voz, cheque minhas permissões, ou se você está em um chat de voz."),
        ("error.cant_connect", "Eu não pude entrar no seu chat de voz. Cheque se eu tenho permissões para acessar ele."),
        ("error.not_in_voice_chat", "Você não pode controlar o tocador de música de fora do chat de voz."),
        ("error.player_exists", "Já existe um tocador de música em um outro chat de voz."),
        ("error.player_not_exists", "Não tem um tocador de música nesse servidor."),
        ("error.empty_queue", "Não há músicas na fila."),
        ("error.not_in_guild", "Você não pode usar esse comando fora de um servidor."),
        ("play.name", "tocar"),
        ("play.description", "Pede para uma música ser tocada, enfileirando ela na fila ou tocando imediatamente se vazio."),
        ("play.query_name", "pesquisa"),
        ("play.query_description", "Uma música ou URL de uma playlist, ou um termo de pesquisa."),
        ("play.play_single", "Tocando: **{0}** by **{1}**."),
        ("play.play_single_url", "Tocando: [**{0}**](<{2}>) por **{1}**."),
        ("play.play_multi", "**{2}** músicas de sua playlist foram enfileirados, **{0}** por **{1}** foi selecionada para tocar agora."),
        ("play.play_multi_url", "**{2}** músicas de sua playlist foram enfileirados, [**{0}**](<{3}>) por **{1}** foi selecionada para tocar agora."),
        ("play.enqueue_single", "**{0}** por **{1}** foi adicionado na fila."),
        ("play.enqueue_single_url", "[**{0}**](<{2}>) por **{1}** foi adicionado na fila."),
        ("play.enqueue_multi", "**{0}** músicas da sua playlist foram enfileirados."),
        ("play.not_found", "Eu não pude encontrar a música solicitada."),
        ("play.truncated", "Você não pode adicionar mais músicas na queue uma vez que ela já esteja no limite permitido. Por favor remova umas algumas músicas antes de tentar de novo."),
        ("play.truncated_warn", "**Aviso: Eu preciso ignorar algumas músicas da sua playlist porque ela maior que o limite permitido.**"),
        ("player.empty", "_Atualmente não estou tocando nada._"),
        ("player.timeout", "Não há mais ninguém conectado no chat de voz. Eu estarei saindo em {0} segundos."),
        ("join.name", "entrar"),
        ("join.description", "Me faça entrar no chat de voz sem tocar nada."),
        ("join.joined", "Eu entrei no seu chat de voz, e agora você pode pedir qualquer música usando {0}."),
        ("stop.stopped", "Eu estou saindo do chat de voz. Espero te ver em breve."),
        ("loop.looping", "A repetição da fila foi alterado para **{0}**."),
        ("loop.autostart", "Normal"),
        ("loop.no_autostart", "Normal sem auto-reprodução"),
        ("loop.music", "Repetir Música"),
        ("loop.queue", "Repetir Fila"),
        ("loop.random", "Próxima música aleatória"),
        ("pause.paused", "Você pausou o tocador de música."),
        ("pause.resumed", "Você resumiu o tocador de música."),
        ("skip.skipping", "Pulando para a música **{0}** por **{1}**."),
        ("skip.skipping_url", "Pulando para a música [**{0}**](<{2}>) por **{1}**."),
        ("prev.returning", "Voltando para a música **{0}** por **{1}**."),
        ("prev.returning_url", "Voltando para a música [**{0}**](<{2}>) por **{1}**."),
        ("seek.name", "procurar"),
        ("seek.description", "Procura pelo tempo na música tocando atualmente."),
        ("seek.time_name", "tempo"),
        ("seek.time_description", "Tempo em segundos ou sintaxe suportada."),
        ("seek.invalid_syntax", "Sintaxe de tempo inválida. Você pode usar números como segundos ou sufixa-los com `m` para minutos ou `h` para horas. Você também pode usar `00:00` ou `00:00:00` para definir as horas."),
        ("seek.seeking", "**{0}**\n{1}\n``{2}/{3}``\n{4}"),
        ("seek.seeking_url", "[**{0}**](<{5}>)\n{1}\n``{2}/{3}``\n{4}"),
    ]
}

/// The languages with translations, by their locale code.
pub open spec fn available_langs() -> Seq<&'static str> {
    seq!["en_US", "pt_BR"]
}

/// The translations of the language at `index` among the available languages.
pub open spec fn lang_table(index: int) -> Seq<(&'static str, &'static str)> {
    if index == 1 {
        pt_br_table()
    } else {
        en_us_table()
    }
}

/// The text of the first entry of `table` whose key is `key`.
pub open spec fn lookup(table: Seq<(&'static str, &'static str)>, key: Seq<char>) -> Option<&'static str>
    decreases table.len(),
{
    if table.len() == 0 {
        None
    } else if table[0].0@ == key {
        Some(table[0].1)
    } else {
        lookup(table.drop_first(), key)
    }
}

/// The translation of `key` in the language `lang`: the language's own text, else the
/// English text, else the key itself. Any language but Brazilian Portuguese reads English.
pub open spec fn translate(lang: Seq<char>, key: Seq<char>) -> Seq<char> {
    let table = if lang == "pt_BR"@ { pt_br_table() } else { en_us_table() };
    match lookup(table, key) {
        Some(text) => text@,
        None => match lookup(en_us_table(), key) {
            Some(text) => text@,
            None => key,
        },
    }
}

/// Whether two texts are equal.
pub fn same_text(a: &str, b: &str) -> (r: bool)
    ensures
        r == (a@ == b@),
{
    let n = a.unicode_len();
    if n != b.unicode_len() {
        return false;
    }
    let mut k: usize = 0;
    while k < n
        invariant
            n == a@.len() == b@.len(),
            k <= n,
            forall|i: int| 0 <= i < k ==> a@[i] == b@[i],
        decreases n - k,
    {
        if a.get_char(k) != b.get_char(k) {
            return false;
        }
        k = k + 1;
    }
    assert(a@ =~= b@);
    true
}

/// Finds the text of `key` in `table`.
fn find(table: &Vec<(&'static str, &'static str)>, key: &str) -> (r: Option<&'static str>)
    ensures
        r == lookup(table@, key@),
{
    let mut k: usize = 0;
    assert(table@.skip(0) =~= table@);
    while k < table.len()
        invariant
            k <= table@.len(),
            lookup(table@, key@) == lookup(table@.skip(k as int), key@),
        decreases table@.len() - k,
    {
        let (entry_key, text) = table[k];
        proof {
            assert(table@.skip(k as int)[0] == table@[k as int]);
            assert(table@.skip(k as int).drop_first() =~= table@.skip(k + 1));
        }
        if same_text(entry_key, key) {
            return Some(text);
        }
        k = k + 1;
    }
    assert(table@.skip(k as int).len() == 0);
    None
}

/// Translate a key to a specific language.
pub fn t<'a>(lang: &str, key: &'a str) -> (r: &'a str)
    ensures
        r@ == translate(lang@, key@),
{
    proof {
        reveal_strlit("pt_BR");
    }
    let table = if same_text(lang, "pt_BR") {
        pt_br_translations()
    } else {
        en_us_translations()
    };
    match find(&table, key) {
        Some(text) => text,
        None => match find(&en_us_translations(), key) {
            Some(text) => text,
            None => key,
        },
    }
}

/// `s` with every occurrence of `pattern`, read from left to right without overlap,
/// replaced by `replacement`.
pub open spec fn replace_all(s: Seq<char>, pattern: Seq<char>, replacement: Seq<char>) -> Seq<char>
    decreases s.len(),
{
    if pattern.len() == 0 || s.len() < pattern.len() {
        s
    } else if s.take(pattern.len() as int) == pattern {
        replacement + replace_all(s.skip(pattern.len() as int), pattern, replacement)
    } else {
        seq![s[0]] + replace_all(s.skip(1), pattern, replacement)
    }
}

/// The placeholder that stands for the variable `name` in a translated text.
pub open spec fn placeholder(name: Seq<char>) -> Seq<char> {
    seq!['{'] + name + seq!['}']
}

/// `text` with the variables, given as (name, value) pairs, put in for their
/// placeholders, one variable after the other.
pub open spec fn fill_vars(text: Seq<char>, vars: Seq<(Seq<char>, Seq<char>)>) -> Seq<char>
    decreases vars.len(),
{
    if vars.len() == 0 {
        text
    } else {
        fill_vars(replace_all(text, placeholder(vars[0].0), vars[0].1), vars.drop_first())
    }
}

/// The texts of the (name, value) pairs of variables.
pub open spec fn var_texts(vars: Seq<(&str, &str)>) -> Seq<(Seq<char>, Seq<char>)> {
    vars.map_values(|v: (&str, &str)| (v.0@, v.1@))
}

/// Whether `pattern` occurs in `s` at `at`.
fn occurs_at(s: &str, n: usize, at: usize, pattern: &str, m: usize) -> (r: bool)
    requires
        n == s@.len(),
        m == pattern@.len(),
        at + m <= n,
    ensures
        r == (s@.subrange(at as int, at + m) == pattern@),
{
    let mut k: usize = 0;
    while k < m
        invariant
            n == s@.len(),
            m == pattern@.len(),
            at + m <= n,
            k <= m,
            forall|i: int| 0 <= i < k ==> s@[at + i] == pattern@[i],
        decreases m - k,
    {
        if s.get_char(at + k) != pattern.get_char(k) {
            assert(s@.subrange(at as int, at + m)[k as int] != pattern@[k as int]);
            return false;
        }
        k = k + 1;
    }
    assert(s@.subrange(at as int, at + m) =~= pattern@);
    true
}

/// Replaces every occurrence of `pattern` in `s`, from left to right, by `replacement`.
pub fn replace_text(s: &str, pattern: &str, replacement: &str) -> (r: String)
    requires
        pattern@.len() > 0,
    ensures
        r@ == replace_all(s@, pattern@, replacement@),
{
    let n = s.unicode_len();
    let m = pattern.unicode_len();
    let mut result = String::new();
    let mut start: usize = 0;
    let mut at: usize = 0;
    assert(s@.skip(0) =~= s@);
    assert(result@ + s@.subrange(0, 0) =~= Seq::<char>::empty());
    while m <= n - at
        invariant
            n == s@.len(),
            m == pattern@.len(),
            m > 0,
            start <= at <= n,
            replace_all(s@, pattern@, replacement@)
                == result@ + s@.subrange(start as int, at as int) + replace_all(s@.skip(at as int), pattern@, replacement@),
        decreases n - at,
    {
        let ghost rest = s@.skip(at as int);
        assert(rest.take(m as int) =~= s@.subrange(at as int, at + m));
        if occurs_at(s, n, at, pattern, m) {
            let pending = s.substring_char(start, at);
            result.append(pending);
            result.append(replacement);
            proof {
                assert(rest.skip(m as int) =~= s@.skip(at + m));
                assert(s@.subrange(at + m, at + m) =~= Seq::<char>::empty());
            }
            at = at + m;
            start = at;
            proof {
                assert(result@ + s@.subrange(start as int, at as int) =~= result@);
            }
        } else {
            proof {
                assert(rest.skip(1) =~= s@.skip(at + 1));
                assert(s@.subrange(start as int, at + 1) =~= s@.subrange(start as int, at as int) + seq![rest[0]]);
            }
            at = at + 1;
        }
    }
    let ghost rest = s@.skip(at as int);
    assert(replace_all(rest, pattern@, replacement@) == rest);
    let tail = s.substring_char(start, n);
    proof {
        assert(s@.subrange(start as int, at as int) + rest =~= s@.subrange(start as int, n as int));
    }
    result.append(tail);
    result
}

/// Translate a key to a specific language with variables: each `{name}` in the text
/// is replaced by the variable's value, variable by variable.
pub fn t_vars(lang: &str, key: &str, vars: &[(&str, &str)]) -> (r: String)
    ensures
        r@ == fill_vars(translate(lang@, key@), var_texts(vars@)),
{
    let mut content = String::from_str(t(lang, key));
    let mut k: usize = 0;
    let ghost texts = var_texts(vars@);
    assert(texts.skip(0) =~= texts);
    while k < vars.len()
        invariant
            k <= vars@.len(),
            texts == var_texts(vars@),
            fill_vars(translate(lang@, key@), texts) == fill_vars(content@, texts.skip(k as int)),
        decreases vars@.len() - k,
    {
        let (name, value) = vars[k];
        let open = String::from_str("{");
        let pattern = open.concat(name).concat("}");
        proof {
            reveal_strlit("{");
            reveal_strlit("}");
            assert(pattern@ =~= placeholder(name@));
            assert(texts.skip(k as int)[0] == (name@, value@));
            assert(texts.skip(k as int).drop_first() =~= texts.skip(k + 1));
        }
        content = replace_text(content.as_str(), pattern.as_str(), value);
        k = k + 1;
    }
    content
}

/// Translate a key to all available languages.
pub fn t_all(key: &str) -> (r: Iter<'_>)
    ensures
        r.key == key,
        r.index == 0,
{
    Iter { key, index: 0 }
}

/// An iterator over the available languages for a specific key.
pub struct Iter<'a> {
    /// The key to translate.
    pub key: &'a str,
    /// The current index.
    pub index: usize,
}

impl<'a> Iter<'a> {
    /// The next language and its text for the key; [None] once the languages are
    /// exhausted or when the language has no text for the key.
    pub fn next(&mut self) -> (r: Option<(&'a str, &'a str)>)
        ensures
            final(self).key == old(self).key,
            old(self).index >= available_langs().len() ==> r is None && final(self).index == old(self).index,
            old(self).index < available_langs().len() ==> final(self).index == old(self).index + 1
                && r == (match lookup(lang_table(old(self).index as int), old(self).key@) {
                    Some(text) => Some((available_langs()[old(self).index as int], text)),
                    None => None,
                }),
    {
        if self.index >= 2 {
            return None;
        }
        let index = self.index;
        self.index = self.index + 1;
        let (lang, table) = if index == 0 {
            ("en_US", en_us_translations())
        } else {
            ("pt_BR", pt_br_translations())
        };
        match find(&table, self.key) {
            Some(text) => Some((lang, text)),
            None => None,
        }
    }
}

} // verus!
