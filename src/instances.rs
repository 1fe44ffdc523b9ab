use vstd::prelude::*;
use vstd::string::StringExecFns;

use crate::models::{ComponentRequirement, Instance, MultiMCComponent, MultiMCInstanceConfig};

verus! {

/// Name and uid of the mod loader component for a loader type, if it has one.
pub open spec fn loader_component(loader_type: Seq<char>) -> Option<(Seq<char>, Seq<char>)> {
    if loader_type == "forge"@ {
        Some(("Minecraft Forge"@, "net.minecraftforge"@))
    } else if loader_type == "fabric"@ {
        Some(("Fabric Loader"@, "net.fabricmc.fabric-loader"@))
    } else if loader_type == "quilt"@ {
        Some(("Quilt Loader"@, "org.quiltmc.quilt-loader"@))
    } else if loader_type == "neoforge"@ {
        Some(("NeoForge"@, "net.neoforged.neoforge"@))
    } else {
        None
    }
}

/// Whether `o` holds a text equal to `s`.
pub open spec fn holds_text(o: Option<String>, s: Seq<char>) -> bool {
    match o {
        Some(t) => t@ == s,
        None => false,
    }
}

/// Whether `c` is the game component of version `mc`.
pub open spec fn is_game_component(c: MultiMCComponent, mc: Seq<char>) -> bool {
    &&& holds_text(c.cached_name, "Minecraft"@)
    &&& holds_text(c.cached_version, mc)
    &&& c.cached_requires is None
    &&& c.uid@ == "net.minecraft"@
    &&& c.version@ == mc
}

/// Whether `c` is the loader component named `name` with uid `uid`, of loader
/// version `version`, for game version `mc`.
pub open spec fn is_loader_component(
    c: MultiMCComponent,
    name: Seq<char>,
    uid: Seq<char>,
    version: Seq<char>,
    mc: Seq<char>,
) -> bool {
    &&& holds_text(c.cached_name, name)
    &&& holds_text(c.cached_version, version)
    &&& match c.cached_requires {
        Some(reqs) => reqs@.len() == 1 && holds_text(reqs@[0].equals, mc) && reqs@[0].uid@
            == "net.minecraft"@,
        None => false,
    }
    &&& c.uid@ == uid
    &&& c.version@ == version
}

fn text(s: &str) -> (r: String)
    ensures
        r@ == s@,
{
    String::from_str(s)
}

fn loader_component_of(
    name: &str,
    uid: &str,
    instance: &Instance,
) -> (r: MultiMCComponent)
    ensures
        is_loader_component(
            r,
            name@,
            uid@,
            instance.loader_version@,
            instance.minecraft_version@,
        ),
{
    let mut needs: Vec<ComponentRequirement> = Vec::new();
    needs.push(
        ComponentRequirement {
            equals: Some(instance.minecraft_version.clone()),
            uid: text("net.minecraft"),
        },
    );
    MultiMCComponent {
        cached_name: Some(text(name)),
        cached_version: Some(instance.loader_version.clone()),
        cached_requires: Some(needs),
        uid: text(uid),
        version: instance.loader_version.clone(),
    }
}

/// The components of the pack description of an instance: the game, then
/// the mod loader when the instance has one.
pub fn create_multimc_components(instance: &Instance) -> (r: Vec<MultiMCComponent>)
    ensures
        is_game_component(r@[0], instance.minecraft_version@),
        match loader_component(instance.loader_type@) {
            Some((name, uid)) => r@.len() == 2 && is_loader_component(
                r@[1],
                name,
                uid,
                instance.loader_version@,
                instance.minecraft_version@,
            ),
            None => r@.len() == 1,
        },
{
    let mut components: Vec<MultiMCComponent> = Vec::new();
    components.push(
        MultiMCComponent {
            cached_name: Some(text("Minecraft")),
            cached_version: Some(instance.minecraft_version.clone()),
            cached_requires: None,
            uid: text("net.minecraft"),
            version: instance.minecraft_version.clone(),
        },
    );
    let loader = &instance.loader_type;
    if *loader == text("forge") {
        components.push(loader_component_of("Minecraft Forge", "net.minecraftforge", instance));
    } else if *loader == text("fabric") {
        components.push(
            loader_component_of("Fabric Loader", "net.fabricmc.fabric-loader", instance),
        );
    } else if *loader == text("quilt") {
        components.push(loader_component_of("Quilt Loader", "org.quiltmc.quilt-loader", instance));
    } else if *loader == text("neoforge") {
        components.push(loader_component_of("NeoForge", "net.neoforged.neoforge", instance));
    }
    components
}

/// The decimal digit `d` as text.
pub open spec fn digit_text(d: nat) -> Seq<char> {
    if d == 0 {
        "0"@
    } else if d == 1 {
        "1"@
    } else if d == 2 {
        "2"@
    } else if d == 3 {
        "3"@
    } else if d == 4 {
        "4"@
    } else if d == 5 {
        "5"@
    } else if d == 6 {
        "6"@
    } else if d == 7 {
        "7"@
    } else if d == 8 {
        "8"@
    } else {
        "9"@
    }
}

/// `n` written in decimal.
pub open spec fn decimal(n: nat) -> Seq<char>
    decreases n,
{
    if n < 10 {
        digit_text(n)
    } else {
        decimal(n / 10) + digit_text(n % 10)
    }
}

fn digit(d: u32) -> (r: &'static str)
    requires
        d < 10,
    ensures
        r@ == digit_text(d as nat),
{
    if d == 0 {
        "0"
    } else if d == 1 {
        "1"
    } else if d == 2 {
        "2"
    } else if d == 3 {
        "3"
    } else if d == 4 {
        "4"
    } else if d == 5 {
        "5"
    } else if d == 6 {
        "6"
    } else if d == 7 {
        "7"
    } else if d == 8 {
        "8"
    } else {
        "9"
    }
}

/// `n` written in decimal.
pub fn decimal_text(n: u32) -> (r: String)
    ensures
        r@ == decimal(n as nat),
    decreases n,
{
    if n < 10 {
        text(digit(n))
    } else {
        let mut r = decimal_text(n / 10);
        r.append(digit(n % 10));
        r
    }
}

/// `true` or `false`.
pub open spec fn bool_text(b: bool) -> Seq<char> {
    if b {
        "true"@
    } else {
        "false"@
    }
}

fn bool_str(b: bool) -> (r: &'static str)
    ensures
        r@ == bool_text(b),
{
    if b {
        "true"
    } else {
        "false"
    }
}

/// The text of an `instance.cfg` file: one `key=value` line per setting, and
/// the JVM arguments last when there are some.
pub open spec fn instance_cfg_text(c: MultiMCInstanceConfig) -> Seq<char> {
    let base = "InstanceType="@ + c.instance_type@ + "\n"@ + "name="@ + c.name@ + "\n"@
        + "iconKey="@ + c.icon_key@ + "\n"@ + "OverrideMemory="@ + bool_text(c.override_memory)
        + "\n"@ + "MinMemAlloc="@ + decimal(c.min_mem_alloc as nat) + "\n"@ + "MaxMemAlloc="@
        + decimal(c.max_mem_alloc as nat) + "\n"@ + "OverrideJava="@ + bool_text(c.override_java)
        + "\n"@ + "JavaPath="@ + c.java_path@ + "\n"@ + "Notes="@ + c.notes@;
    match c.jvm_args {
        Some(a) => base + "\n"@ + "JvmArgs="@ + a@,
        None => base,
    }
}

pub fn format_instance_cfg(config: &MultiMCInstanceConfig) -> (r: String)
    ensures
        r@ == instance_cfg_text(*config),
{
    let mut r = text("InstanceType=");
    r.append(config.instance_type.as_str());
    r.append("\n");
    r.append("name=");
    r.append(config.name.as_str());
    r.append("\n");
    r.append("iconKey=");
    r.append(config.icon_key.as_str());
    r.append("\n");
    r.append("OverrideMemory=");
    r.append(bool_str(config.override_memory));
    r.append("\n");
    r.append("MinMemAlloc=");
    r.append(decimal_text(config.min_mem_alloc).as_str());
    r.append("\n");
    r.append("MaxMemAlloc=");
    r.append(decimal_text(config.max_mem_alloc).as_str());
    r.append("\n");
    r.append("OverrideJava=");
    r.append(bool_str(config.override_java));
    r.append("\n");
    r.append("JavaPath=");
    r.append(config.java_path.as_str());
    r.append("\n");
    r.append("Notes=");
    r.append(config.notes.as_str());
    if let Some(a) = &config.jvm_args {
        r.append("\n");
        r.append("JvmArgs=");
        r.append(a.as_str());
    }
    r
}

/// What an `instance.cfg` file says of the settings the launcher reads back.
#[derive(Clone, Debug, Default)]
pub struct ParsedInstanceConfig {
    pub name: Option<String>,
    pub java_path: Option<String>,
    pub max_mem_alloc: Option<u32>,
    pub min_mem_alloc: Option<u32>,
    pub jvm_args: Option<String>,
}

/// The settings read from an `instance.cfg` file, as plain values.
pub struct CfgView {
    pub name: Option<Seq<char>>,
    pub java_path: Option<Seq<char>>,
    pub max_mem_alloc: Option<u32>,
    pub min_mem_alloc: Option<u32>,
    pub jvm_args: Option<Seq<char>>,
}

pub open spec fn text_view(o: Option<String>) -> Option<Seq<char>> {
    match o {
        Some(t) => Some(t@),
        None => None,
    }
}

impl ParsedInstanceConfig {
    pub open spec fn view(self) -> CfgView {
        CfgView {
            name: text_view(self.name),
            java_path: text_view(self.java_path),
            max_mem_alloc: self.max_mem_alloc,
            min_mem_alloc: self.min_mem_alloc,
            jvm_args: text_view(self.jvm_args),
        }
    }
}

pub open spec fn empty_cfg() -> CfgView {
    CfgView { name: None, java_path: None, max_mem_alloc: None, min_mem_alloc: None, jvm_args: None }
}

/// The characters that `char::is_whitespace` accepts (Unicode White_Space).
pub open spec fn is_space(c: char) -> bool {
    ||| c == ' '
    ||| ('\u{9}' <= c && c <= '\u{d}')
    ||| c == '\u{85}'
    ||| c == '\u{a0}'
    ||| c == '\u{1680}'
    ||| ('\u{2000}' <= c && c <= '\u{200a}')
    ||| c == '\u{2028}'
    ||| c == '\u{2029}'
    ||| c == '\u{202f}'
    ||| c == '\u{205f}'
    ||| c == '\u{3000}'
}

fn space(c: char) -> (r: bool)
    ensures
        r == is_space(c),
{
    c == ' ' || ('\u{9}' <= c && c <= '\u{d}') || c == '\u{85}' || c == '\u{a0}' || c == '\u{1680}'
        || ('\u{2000}' <= c && c <= '\u{200a}') || c == '\u{2028}' || c == '\u{2029}' || c
        == '\u{202f}' || c == '\u{205f}' || c == '\u{3000}'
}

/// `s` without its leading white space.
pub open spec fn trim_start(s: Seq<char>) -> Seq<char>
    decreases s.len(),
{
    if s.len() > 0 && is_space(s[0]) {
        trim_start(s.drop_first())
    } else {
        s
    }
}

/// `s` without its trailing white space.
pub open spec fn trim_end(s: Seq<char>) -> Seq<char>
    decreases s.len(),
{
    if s.len() > 0 && is_space(s.last()) {
        trim_end(s.drop_last())
    } else {
        s
    }
}

/// `s` without white space at either end.
pub open spec fn trim(s: Seq<char>) -> Seq<char> {
    trim_end(trim_start(s))
}

proof fn lemma_trim_start(s: Seq<char>, a: int)
    requires
        0 <= a <= s.len(),
        forall|j: int| 0 <= j < a ==> is_space(#[trigger] s[j]),
        a == s.len() || !is_space(s[a]),
    ensures
        trim_start(s) == s.subrange(a, s.len() as int),
    decreases a,
{
    if a == 0 {
        assert(s.subrange(0, s.len() as int) =~= s);
    } else {
        let t = s.drop_first();
        assert forall|j: int| 0 <= j < a - 1 implies is_space(#[trigger] t[j]) by {
            assert(t[j] == s[j + 1]);
        }
        if a - 1 < t.len() {
            assert(t[a - 1] == s[a]);
        }
        lemma_trim_start(t, a - 1);
        assert(t.subrange(a - 1, t.len() as int) =~= s.subrange(a, s.len() as int));
    }
}

proof fn lemma_trim_end(s: Seq<char>, b: int)
    requires
        0 <= b <= s.len(),
        forall|j: int| b <= j < s.len() ==> is_space(#[trigger] s[j]),
        b == 0 || !is_space(s[b - 1]),
    ensures
        trim_end(s) == s.subrange(0, b),
    decreases s.len() - b,
{
    if b == s.len() {
        assert(s.subrange(0, b) =~= s);
    } else {
        let t = s.drop_last();
        assert forall|j: int| b <= j < t.len() implies is_space(#[trigger] t[j]) by {
            assert(t[j] == s[j]);
        }
        if b > 0 {
            assert(t[b - 1] == s[b - 1]);
        }
        lemma_trim_end(t, b);
        assert(t.subrange(0, b) =~= s.subrange(0, b));
    }
}

/// `s` without white space at either end.
fn trimmed(s: &str) -> (r: String)
    ensures
        r@ == trim(s@),
{
    let n = s.unicode_len();
    let mut a: usize = 0;
    while a < n && space(s.get_char(a))
        invariant
            n == s@.len(),
            a <= n,
            forall|j: int| 0 <= j < a ==> is_space(#[trigger] s@[j]),
        decreases n - a,
    {
        a = a + 1;
    }
    proof {
        lemma_trim_start(s@, a as int);
    }
    let mut b: usize = n;
    while b > a && space(s.get_char(b - 1))
        invariant
            n == s@.len(),
            a <= b <= n,
            forall|j: int| b <= j < n ==> is_space(#[trigger] s@[j]),
        decreases b,
    {
        b = b - 1;
    }
    let ghost t = s@.subrange(a as int, n as int);
    proof {
        assert forall|j: int| b - a <= j < t.len() implies is_space(#[trigger] t[j]) by {
            assert(t[j] == s@[a + j]);
        }
        if b > a {
            assert(t[b - a - 1] == s@[b - 1]);
        }
        lemma_trim_end(t, b - a);
        assert(t.subrange(0, b - a) =~= s@.subrange(a as int, b as int));
    }
    text(s.substring_char(a, b))
}

/// Key and value of a `key=value` line, split at the first `=`.
pub open spec fn split_eq(s: Seq<char>) -> Option<(Seq<char>, Seq<char>)>
    decreases s.len(),
{
    if s.len() == 0 {
        None
    } else if s[0] == '=' {
        Some((Seq::<char>::empty(), s.drop_first()))
    } else {
        match split_eq(s.drop_first()) {
            Some((k, v)) => Some((seq![s[0]] + k, v)),
            None => None,
        }
    }
}

proof fn lemma_split_eq(s: Seq<char>, k: int)
    requires
        0 <= k <= s.len(),
        forall|j: int| 0 <= j < k ==> #[trigger] s[j] != '=',
        k == s.len() || s[k] == '=',
    ensures
        k == s.len() ==> split_eq(s) is None,
        k < s.len() ==> split_eq(s) == Some(
            (s.subrange(0, k), s.subrange(k + 1, s.len() as int)),
        ),
    decreases k,
{
    if k > 0 {
        let t = s.drop_first();
        assert forall|j: int| 0 <= j < k - 1 implies #[trigger] t[j] != '=' by {
            assert(t[j] == s[j + 1]);
        }
        if k < s.len() {
            assert(t[k - 1] == s[k]);
        }
        assert(s[0] != '=');
        lemma_split_eq(t, k - 1);
        if k < s.len() {
            assert(seq![s[0]] + t.subrange(0, k - 1) =~= s.subrange(0, k));
            assert(t.subrange(k, t.len() as int) =~= s.subrange(k + 1, s.len() as int));
        }
    } else if s.len() > 0 {
        assert(s.subrange(0, 0) =~= Seq::<char>::empty());
        assert(s.subrange(1, s.len() as int) =~= s.drop_first());
    }
}

/// Whether `c` is a decimal digit.
pub open spec fn is_digit(c: char) -> bool {
    '0' <= c && c <= '9'
}

/// Value of a string of decimal digits.
pub open spec fn digits_value(d: Seq<char>) -> nat
    decreases d.len(),
{
    if d.len() == 0 {
        0
    } else {
        digits_value(d.drop_last()) * 10 + ((d.last() as u32 - '0' as u32) as nat)
    }
}

/// The value of a non-empty string of decimal digits that fits in 32 bits.
pub open spec fn parse_digits(d: Seq<char>) -> Option<u32> {
    if d.len() > 0 && (forall|i: int| 0 <= i < d.len() ==> is_digit(#[trigger] d[i]))
        && digits_value(d) <= u32::MAX {
        Some(digits_value(d) as u32)
    } else {
        None
    }
}

/// What `str::parse::<u32>` makes of a text: an optional `+` then decimal
/// digits whose value fits in 32 bits; nothing else.
pub open spec fn parse_u32(s: Seq<char>) -> Option<u32> {
    if s.len() > 0 && s[0] == '+' {
        parse_digits(s.drop_first())
    } else {
        parse_digits(s)
    }
}

proof fn lemma_digits_prefix(d: Seq<char>, i: int)
    requires
        0 <= i <= d.len(),
        forall|j: int| 0 <= j < d.len() ==> is_digit(#[trigger] d[j]),
    ensures
        digits_value(d.subrange(0, i)) <= digits_value(d),
    decreases d.len() - i,
{
    if i < d.len() {
        let t = d.drop_last();
        assert forall|j: int| 0 <= j < t.len() implies is_digit(#[trigger] t[j]) by {
            assert(t[j] == d[j]);
        }
        lemma_digits_prefix(t, i);
        assert(t.subrange(0, i) =~= d.subrange(0, i));
    } else {
        assert(d.subrange(0, i) =~= d);
    }
}

/// The number written in `s`, as `str::parse::<u32>` reads it.
pub fn parse_number(s: &str) -> (r: Option<u32>)
    ensures
        r == parse_u32(s@),
{
    let n = s.unicode_len();
    let mut i: usize = 0;
    if n > 0 && s.get_char(0) == '+' {
        i = 1;
    }
    let ghost start = i as int;
    let ghost d = s@.subrange(start, n as int);
    assert(d =~= (if s@.len() > 0 && s@[0] == '+' { s@.drop_first() } else { s@ }));
    assert(parse_u32(s@) == parse_digits(d));
    if i == n {
        return None;
    }
    let mut acc: u64 = 0;
    while i < n
        invariant
            n == s@.len(),
            0 <= start <= i <= n,
            d == s@.subrange(start, n as int),
            parse_u32(s@) == parse_digits(d),
            d.len() > 0,
            forall|j: int| start <= j < i ==> is_digit(#[trigger] s@[j]),
            acc as nat == digits_value(s@.subrange(start, i as int)),
            acc <= u32::MAX,
        decreases n - i,
    {
        let c = s.get_char(i);
        if !('0' <= c && c <= '9') {
            proof {
                let k: int = i as int - start;
                assert(0 <= k < d.len());
                assert(d[k] == s@[start + k]);
                assert(!is_digit(d[k]));
            }
            return None;
        }
        let next = acc * 10 + (c as u32 - '0' as u32) as u64;
        assert(s@.subrange(start, i + 1).drop_last() =~= s@.subrange(start, i as int));
        if next > u32::MAX as u64 {
            proof {
                assert(digits_value(s@.subrange(start, i + 1)) == next);
                let e = s@.subrange(start, i + 1);
                // a longer digit string is worth at least as much, or a
                // non-digit comes later: either way no value fits
                if forall|j: int| 0 <= j < d.len() ==> is_digit(#[trigger] d[j]) {
                    lemma_digits_prefix(d, i + 1 - start);
                    assert(d.subrange(0, i + 1 - start) =~= e);
                }
            }
            return None;
        }
        acc = next;
        i = i + 1;
    }
    assert(s@.subrange(start, n as int) =~= d);
    Some(acc as u32)
}

/// The settings after one line of the file.
pub open spec fn apply_line(c: CfgView, line: Seq<char>) -> CfgView {
    match split_eq(line) {
        Some((k, v)) => {
            let key = trim(k);
            let value = trim(v);
            if key == "name"@ {
                CfgView { name: Some(value), ..c }
            } else if key == "JavaPath"@ {
                CfgView { java_path: Some(value), ..c }
            } else if key == "MaxMemAlloc"@ {
                CfgView { max_mem_alloc: parse_u32(value), ..c }
            } else if key == "MinMemAlloc"@ {
                CfgView { min_mem_alloc: parse_u32(value), ..c }
            } else if key == "JvmArgs"@ {
                CfgView { jvm_args: Some(value), ..c }
            } else {
                c
            }
        },
        None => c,
    }
}

/// The settings read from `rest`, from settings `c` and a line begun as `line`.
pub open spec fn parse_lines(c: CfgView, line: Seq<char>, rest: Seq<char>) -> CfgView
    decreases rest.len(),
{
    if rest.len() == 0 {
        apply_line(c, line)
    } else if rest[0] == '\n' {
        parse_lines(apply_line(c, line), Seq::<char>::empty(), rest.drop_first())
    } else {
        parse_lines(c, line.push(rest[0]), rest.drop_first())
    }
}

/// The settings an `instance.cfg` file holds: for each key the launcher reads,
/// the trimmed value of its last line.
pub open spec fn cfg_of(content: Seq<char>) -> CfgView {
    parse_lines(empty_cfg(), Seq::<char>::empty(), content)
}

fn apply_line_exec(c: &mut ParsedInstanceConfig, line: &str)
    ensures
        final(c).view() == apply_line(old(c).view(), line@),
{
    let n = line.unicode_len();
    let mut k: usize = 0;
    while k < n && line.get_char(k) != '='
        invariant
            n == line@.len(),
            k <= n,
            forall|j: int| 0 <= j < k ==> #[trigger] line@[j] != '=',
        decreases n - k,
    {
        k = k + 1;
    }
    proof {
        lemma_split_eq(line@, k as int);
    }
    if k == n {
        return;
    }
    let key = trimmed(line.substring_char(0, k));
    let value = trimmed(line.substring_char(k + 1, n));
    if key == text("name") {
        c.name = Some(value);
    } else if key == text("JavaPath") {
        c.java_path = Some(value);
    } else if key == text("MaxMemAlloc") {
        c.max_mem_alloc = parse_number(value.as_str());
    } else if key == text("MinMemAlloc") {
        c.min_mem_alloc = parse_number(value.as_str());
    } else if key == text("JvmArgs") {
        c.jvm_args = Some(value);
    }
}

/// Reads the settings the launcher needs from the text of an `instance.cfg`
/// file: lines of the form `key=value`, split at the first `=`, with white
/// space trimmed off both; a later line overrides an earlier one, and a
/// memory value that is not a number clears the setting.
pub fn parse_instance_cfg(content: &str) -> (r: ParsedInstanceConfig)
    ensures
        r.view() == cfg_of(content@),
{
    let mut c = ParsedInstanceConfig {
        name: None,
        java_path: None,
        max_mem_alloc: None,
        min_mem_alloc: None,
        jvm_args: None,
    };
    let n = content.unicode_len();
    let mut start: usize = 0;
    let mut i: usize = 0;
    assert(c.view() == empty_cfg());
    assert(content@.subrange(0, 0) =~= Seq::<char>::empty());
    assert(content@.subrange(0, n as int) =~= content@);
    while i < n
        invariant
            n == content@.len(),
            start <= i <= n,
            parse_lines(c.view(), content@.subrange(start as int, i as int), content@.subrange(
                i as int,
                n as int,
            )) == cfg_of(content@),
        decreases n - i,
    {
        let ghost rest = content@.subrange(i as int, n as int);
        assert(rest.drop_first() =~= content@.subrange(i + 1, n as int));
        if content.get_char(i) == '\n' {
            apply_line_exec(&mut c, content.substring_char(start, i));
            start = i + 1;
            assert(content@.subrange(start as int, start as int) =~= Seq::<char>::empty());
        } else {
            assert(content@.subrange(start as int, i as int).push(content@[i as int])
                =~= content@.subrange(start as int, i + 1));
        }
        i = i + 1;
    }
    assert(content@.subrange(n as int, n as int) =~= Seq::<char>::empty());
    apply_line_exec(&mut c, content.substring_char(start, n));
    c
}

} // verus!
