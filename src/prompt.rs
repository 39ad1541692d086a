use vstd::prelude::*;
use vstd::string::StringExecFns;

verus! {

/// Everything a review prompt is made of, file contents already read.
pub struct PromptSections {
    pub output_language: String,
    pub standards_text: String,
    pub example_text: Option<String>,
    pub additional_context_text: Option<String>,
    pub target_file_contents: Vec<String>,
}

pub const INTRO_HEAD: &'static str = "Eres un asistente experto en revisión de código. Tu tarea es analizar los archivos de código proporcionados y compararlos con los estándares de codificación dados.\n\nResponde en formato Markdown y en ";

pub const INTRO_TAIL: &'static str = ". Para cada hallazgo, utiliza una notación similar a un 'diff':\n- Usa '-' para incumplimientos o problemas encontrados.\n- Usa '+' para recomendaciones o posibles mejoras.\n- Usa '!' para comentarios u observaciones generales.\n\nEjemplo de formato de respuesta:\n```diff\n- src/main.rs: Línea 10: La función 'foo' carece de documentación.\n+ src/main.rs: Considera agregar pruebas unitarias para la función 'bar'.\n! src/utils.rs: La calidad general del código es buena y sigue las convenciones.\n```\n\n";

pub const STANDARDS_BEGIN: &'static str = "--- INICIO ESTÁNDARES DE CODIFICACIÓN ---\n";

pub const STANDARDS_END: &'static str = "\n--- FIN ESTÁNDARES DE CODIFICACIÓN ---\n";

pub const EXAMPLE_BEGIN: &'static str = "\n\nAdicionalmente, aquí tienes un ejemplo de código que cumple con los estándares. Úsalo como referencia para tu análisis:\n\n--- INICIO EJEMPLO DE CÓDIGO ---\n";

pub const EXAMPLE_END: &'static str = "\n--- FIN EJEMPLO DE CÓDIGO ---\n";

pub const CONTEXT_BEGIN: &'static str = "\n\n--- INICIO CONTEXTO ADICIONAL ---\n";

pub const CONTEXT_END: &'static str = "\n--- FIN CONTEXTO ADICIONAL ---\n";

pub const FILES_BEGIN: &'static str = "--- INICIO ARCHIVOS DE CÓDIGO A ANALIZAR ---\n";

pub const FILES_SEPARATOR: &'static str = "\n---\n";

pub const FILES_END: &'static str = "\n--- FIN ARCHIVOS DE CÓDIGO A ANALIZAR ---";

/// The texts of `parts`, with `sep` between each two of them.
pub open spec fn join(parts: Seq<Seq<char>>, sep: Seq<char>) -> Seq<char>
    decreases parts.len(),
{
    if parts.len() == 0 {
        Seq::empty()
    } else if parts.len() == 1 {
        parts[0]
    } else {
        join(parts.drop_last(), sep) + sep + parts.last()
    }
}

/// A delimited block holding `body`, or nothing where `body` is absent or empty.
pub open spec fn optional_block(body: Option<String>, begin: Seq<char>, end: Seq<char>) -> Seq<char> {
    match body {
        Some(t) => if t@.len() > 0 {
            begin + t@ + end
        } else {
            Seq::empty()
        },
        None => Seq::empty(),
    }
}

pub open spec fn file_texts(files: Seq<String>) -> Seq<Seq<char>> {
    files.map_values(|f: String| f@)
}

/// The instructions and the standards block, which every prompt opens with.
pub open spec fn prompt_head(s: PromptSections) -> Seq<char> {
    INTRO_HEAD@ + s.output_language@ + INTRO_TAIL@ + STANDARDS_BEGIN@ + s.standards_text@
        + STANDARDS_END@
}

/// The additional context block and the target files, which every prompt ends with.
pub open spec fn prompt_rest(s: PromptSections) -> Seq<char> {
    optional_block(s.additional_context_text, CONTEXT_BEGIN@, CONTEXT_END@) + FILES_BEGIN@ + join(
        file_texts(s.target_file_contents@),
        FILES_SEPARATOR@,
    ) + FILES_END@
}

/// The prompt that asks for a review of the target files against the standards.
pub open spec fn prompt_of(s: PromptSections) -> Seq<char> {
    prompt_head(s) + optional_block(s.example_text, EXAMPLE_BEGIN@, EXAMPLE_END@) + prompt_rest(s)
}

/// The prompt depends on the sections alone: equal sections give the same text.
pub proof fn lemma_prompt_deterministic(a: PromptSections, b: PromptSections)
    requires
        a.output_language@ == b.output_language@,
        a.standards_text@ == b.standards_text@,
        a.example_text == b.example_text,
        a.additional_context_text == b.additional_context_text,
        file_texts(a.target_file_contents@) == file_texts(b.target_file_contents@),
    ensures
        prompt_of(a) == prompt_of(b),
{
}

/// Without an example, or with an empty one, the prompt holds no example block
/// at all: it is the opening and the ending alone. With an example that has
/// text, the delimited block stands between them.
pub proof fn lemma_example_block_omitted(without: PromptSections, with: PromptSections, example: String)
    requires
        without.output_language == with.output_language,
        without.standards_text == with.standards_text,
        without.additional_context_text == with.additional_context_text,
        without.target_file_contents == with.target_file_contents,
        without.example_text is None,
        with.example_text == Some(example),
    ensures
        prompt_of(without) == prompt_head(without) + prompt_rest(without),
        example@.len() == 0 ==> prompt_of(with) == prompt_of(without),
        example@.len() > 0 ==> prompt_of(with) == prompt_head(without) + EXAMPLE_BEGIN@ + example@
            + EXAMPLE_END@ + prompt_rest(without),
{
    assert(prompt_head(without) + Seq::<char>::empty() =~= prompt_head(without));
    if example@.len() > 0 {
        assert(prompt_of(with) =~= prompt_head(without) + EXAMPLE_BEGIN@ + example@ + EXAMPLE_END@
            + prompt_rest(without));
    }
}

/// Appends the block for `body` to `out`, where `body` has text.
fn append_block(out: &mut String, body: &Option<String>, begin: &str, end: &str)
    ensures
        final(out)@ == old(out)@ + optional_block(*body, begin@, end@),
{
    match body {
        Some(t) => {
            if !t.as_str().is_empty() {
                out.append(begin);
                out.append(t.as_str());
                out.append(end);
                assert(final(out)@ =~= old(out)@ + (begin@ + t@ + end@));
            } else {
                assert(old(out)@ + Seq::<char>::empty() =~= old(out)@);
            }
        },
        None => {
            assert(old(out)@ + Seq::<char>::empty() =~= old(out)@);
        },
    }
}

/// Composes the review prompt: the instructions in `output_language`, the
/// standards, the example and the additional context where they have text, and
/// the target files.
pub fn assemble_prompt(s: &PromptSections) -> (r: String)
    ensures
        r@ == prompt_of(*s),
{
    let mut out = String::from_str(INTRO_HEAD);
    out.append(s.output_language.as_str());
    out.append(INTRO_TAIL);
    out.append(STANDARDS_BEGIN);
    out.append(s.standards_text.as_str());
    out.append(STANDARDS_END);
    append_block(&mut out, &s.example_text, EXAMPLE_BEGIN, EXAMPLE_END);
    append_block(&mut out, &s.additional_context_text, CONTEXT_BEGIN, CONTEXT_END);
    out.append(FILES_BEGIN);
    let ghost before = out@;
    let files = &s.target_file_contents;
    let mut i: usize = 0;
    while i < files.len()
        invariant
            i <= files@.len(),
            out@ == before + join(file_texts(files@.take(i as int)), FILES_SEPARATOR@),
        decreases files@.len() - i,
    {
        let ghost prev = out@;
        if i > 0 {
            out.append(FILES_SEPARATOR);
        }
        out.append(files[i].as_str());
        assert(file_texts(files@.take(i + 1)).drop_last() =~= file_texts(files@.take(i as int)));
        assert(file_texts(files@.take(i + 1)).last() == files@[i as int]@);
        if i == 0 {
            assert(file_texts(files@.take(0)) =~= Seq::<Seq<char>>::empty());
            assert(out@ =~= before + join(file_texts(files@.take(1)), FILES_SEPARATOR@));
        } else {
            assert(out@ =~= before + join(file_texts(files@.take(i + 1)), FILES_SEPARATOR@));
        }
        i += 1;
    }
    assert(files@.take(files@.len() as int) =~= files@);
    out.append(FILES_END);
    assert(out@ =~= prompt_of(*s));
    out
}

} // verus!
